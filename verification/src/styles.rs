//! Style resolution: the default colors implied by a severity level, the
//! override precedence among block, border and title styles, and the level
//! icons.

use vstd::prelude::*;

verus! {

use crate::color::Color;
use crate::types::Level;

/// A minimal terminal text style: optional foreground and background colors.
#[derive(Debug, Clone, Copy, PartialEq, Eq, Structural, Default)]
pub struct Style {
    pub fg: Option<Color>,
    pub bg: Option<Color>,
}

impl Style {
    /// The empty style: no colors set.
    pub fn new() -> (s: Style)
        ensures
            s == (Style { fg: None::<Color>, bg: None::<Color> }),
    {
        Style { fg: None, bg: None }
    }

    /// This style with the foreground color replaced.
    pub fn fg(self, color: Color) -> (s: Style)
        ensures
            s == (Style { fg: Some(color), ..self }),
    {
        Style { fg: Some(color), ..self }
    }

    /// This style with the background color replaced.
    pub fn bg(self, color: Color) -> (s: Style)
        ensures
            s == (Style { bg: Some(color), ..self }),
    {
        Style { bg: Some(color), ..self }
    }
}

/// The accent color of a severity level.
pub open spec fn spec_level_color(level: Level) -> Color {
    match level {
        Level::Info => Color::Green,
        Level::Warn => Color::Yellow,
        Level::Error => Color::Red,
        Level::Debug => Color::Blue,
        Level::Trace => Color::Magenta,
    }
}

/// The accent color of a severity level.
pub fn level_color(level: Level) -> (c: Color)
    ensures
        c == spec_level_color(level),
{
    match level {
        Level::Info => Color::Green,
        Level::Warn => Color::Yellow,
        Level::Error => Color::Red,
        Level::Debug => Color::Blue,
        Level::Trace => Color::Magenta,
    }
}

/// The border style that `resolve_styles` chooses: an explicit override, the
/// level's accent color, or dark gray when neither is given.
pub open spec fn spec_border_style(level: Option<Level>, border: Option<Style>) -> Style {
    match border {
        Some(s) => s,
        None => match level {
            Some(l) => Style { fg: Some(spec_level_color(l)), bg: None },
            None => Style { fg: Some(Color::DarkGray), bg: None },
        },
    }
}

/// The title style that `resolve_styles` chooses: an explicit override, or a
/// style carrying the accent color when one exists (the border override's
/// foreground, else the level's color), or the empty style.
pub open spec fn spec_title_style(
    level: Option<Level>,
    border: Option<Style>,
    title: Option<Style>,
) -> Style {
    match title {
        Some(s) => s,
        None => {
            let accent: Option<Color> = match border {
                Some(b) => b.fg,
                None => match level {
                    Some(l) => Some(spec_level_color(l)),
                    None => None,
                },
            };
            match accent {
                Some(c) => Style { fg: Some(c), bg: None },
                None => Style { fg: None, bg: None },
            }
        },
    }
}

/// Resolve the three styles of a notification box — block, border, title —
/// from the severity level and the per-notification overrides.
///
/// An override always wins. Without overrides the block and title styles are
/// empty except that the title picks up the accent color (from the border
/// override or the level), and the border carries the level's accent color,
/// or dark gray when no level is set.
pub fn resolve_styles(
    level: Option<Level>,
    block_style: Option<Style>,
    border_style: Option<Style>,
    title_style: Option<Style>,
) -> (r: (Style, Style, Style))
    ensures
        r.0 == match block_style {
            Some(s) => s,
            None => Style { fg: None::<Color>, bg: None::<Color> },
        },
        r.1 == spec_border_style(level, border_style),
        r.2 == spec_title_style(level, border_style, title_style),
{
    let block = match block_style {
        Some(s) => s,
        None => Style::new(),
    };
    let border = match border_style {
        Some(s) => s,
        None => match level {
            Some(l) => Style::new().fg(level_color(l)),
            None => Style::new().fg(Color::DarkGray),
        },
    };
    let title = match title_style {
        Some(s) => s,
        None => {
            let accent: Option<Color> = match border_style {
                Some(b) => b.fg,
                None => match level {
                    Some(l) => Some(level_color(l)),
                    None => None,
                },
            };
            match accent {
                Some(c) => Style::new().fg(c),
                None => Style::new(),
            }
        },
    };
    (block, border, title)
}

/// The icon shown beside a notification title for each severity level.
pub fn get_level_icon(level: Option<Level>) -> (r: Option<&'static str>)
    ensures
        level is None <==> r is None,
        level == Some(Level::Info) ==> r is Some && r->0@ == " ℹ"@,
        level == Some(Level::Warn) ==> r is Some && r->0@ == " ⚠"@,
        level == Some(Level::Error) ==> r is Some && r->0@ == " ✖"@,
        level == Some(Level::Debug) ==> r is Some && r->0@ == " 🐞"@,
        level == Some(Level::Trace) ==> r is Some && r->0@ == " ⊙"@,
{
    match level {
        Some(Level::Info) => Some(" ℹ"),
        Some(Level::Warn) => Some(" ⚠"),
        Some(Level::Error) => Some(" ✖"),
        Some(Level::Debug) => Some(" 🐞"),
        Some(Level::Trace) => Some(" ⊙"),
        None => None,
    }
}

} // verus!
