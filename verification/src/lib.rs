//! A toast-notification overlay engine for terminal user interfaces.
//!
//! The crate manages transient, animated, positioned message boxes rendered
//! on top of an application's screen content: per-notification lifecycle
//! (entry animation, dwell, exit animation), the geometry that turns anchors,
//! directions and progress values into concrete screen rectangles and colors,
//! and the stacking orchestrator that arbitrates among concurrent
//! notifications competing for space at the same anchor.
//!
//! All animation progress is measured in thousandths (0 through 1000) and all
//! durations in whole milliseconds, so that every computation is exact
//! integer arithmetic.

use vstd::prelude::*;

pub mod geometry;
pub mod types;
pub mod color;
pub mod styles;
pub mod anchor;
pub mod slide;
pub mod expand;
pub mod fade;
pub mod notification;
pub mod size;
pub mod state;
pub mod stacking;
pub mod manager;
pub mod render;

pub use anchor::{calculate_anchor_position, calculate_rect, resolve_slide_direction};
pub use color::{Color, color_to_rgb, interpolate_color};
pub use geometry::{Position, Rect, ease_in_quad, ease_out_quad, lerp};
pub use manager::Notifications;
pub use notification::{Notification, NotificationBuilder, CONTENT_LIMIT};
pub use render::RenderItem;
pub use size::calculate_size;
pub use slide::{BorderSet, slide_apply_border_effect, slide_calculate_rect,
    slide_offscreen_position};
pub use stacking::{StackedNotification, calculate_stacking_positions};
pub use state::{ManagerDefaults, NotificationState, update_states};
pub use styles::{Style, get_level_icon, resolve_styles};
pub use types::{Anchor, Animation, AnimationPhase, AutoDismiss, BorderType, Level,
    NotificationError, Overflow, Padding, SizeConstraint, SlideDirection, Timing};

verus! {

/// Animation progress runs from 0 to `PROGRESS_SCALE` (inclusive).
pub const PROGRESS_SCALE: u16 = 1000;

} // verus!
