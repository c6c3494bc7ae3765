[package]
name = "ratatui_notifications"
version = "0.1.0"
edition = "2021"
publish = false

[dependencies]
ratatui = "*"
thiserror = "*"
