//! The closed variant sets that configure a notification: anchors, slide
//! directions, animation kinds, lifecycle phases, severity levels, overflow
//! policy, timing, auto-dismissal, size constraints, padding and borders.
//!
//! Durations are whole milliseconds; percentages are whole percent.

use vstd::prelude::*;

verus! {

/// One of nine named reference positions (a 3-by-3 grid) within the display
/// frame where a notification is placed.
#[derive(Debug, Clone, Copy, PartialEq, Eq, Hash, Structural, Default)]
pub enum Anchor {
    TopLeft,
    TopCenter,
    TopRight,
    MiddleLeft,
    MiddleCenter,
    MiddleRight,
    BottomLeft,
    BottomCenter,
    #[default]
    BottomRight,
}

/// The compass direction a slide animation enters from (and exits toward).
/// `Default` defers to the direction implied by the anchor.
#[derive(Debug, Clone, Copy, PartialEq, Eq, Hash, Structural, Default)]
pub enum SlideDirection {
    #[default]
    Default,
    FromLeft,
    FromRight,
    FromTop,
    FromBottom,
    FromTopLeft,
    FromTopRight,
    FromBottomLeft,
    FromBottomRight,
}

/// Animation style for notification entry and exit.
#[derive(Debug, Clone, Copy, PartialEq, Eq, Hash, Structural, Default)]
#[non_exhaustive]
pub enum Animation {
    /// Slide in from a direction and slide out when dismissed (default).
    #[default]
    Slide,
    /// Expand from the center point when entering and collapse when exiting.
    ExpandCollapse,
    /// Fade in when appearing and fade out when dismissed.
    Fade,
}

/// The current stage of a notification's lifecycle.
#[derive(Debug, Clone, Copy, PartialEq, Eq, Structural, Default)]
pub enum AnimationPhase {
    #[default]
    Pending,
    SlidingIn,
    Expanding,
    FadingIn,
    Dwelling,
    SlidingOut,
    Collapsing,
    FadingOut,
    Finished,
}

impl AnimationPhase {
    /// Entry phases are left when progress reaches completion.
    pub open spec fn is_entry(self) -> bool {
        self is SlidingIn || self is Expanding || self is FadingIn
    }

    /// Exit phases lead to `Finished` when progress reaches completion.
    pub open spec fn is_exit(self) -> bool {
        self is SlidingOut || self is Collapsing || self is FadingOut
    }
}

/// Severity level of a notification; affects default coloring and icon.
#[derive(Debug, Clone, Copy, PartialEq, Eq, Hash, Structural, Default)]
pub enum Level {
    /// Informational message (default).
    #[default]
    Info,
    Warn,
    Error,
    Debug,
    Trace,
}

/// Behavior when the concurrent-notification limit is reached.
#[derive(Debug, Clone, Copy, PartialEq, Eq, Hash, Structural, Default)]
pub enum Overflow {
    /// Discard the oldest live notification to make room (default).
    #[default]
    DiscardOldest,
    /// Discard the incoming notification instead.
    DiscardNewest,
}

/// Animation duration: fixed milliseconds, or an automatically chosen
/// default.
#[derive(Debug, Clone, Copy, PartialEq, Eq, Structural, Default)]
pub enum Timing {
    /// Fixed duration in milliseconds.
    Fixed(u64),
    /// Automatically chosen duration.
    #[default]
    Auto,
}

/// Whether a notification dismisses itself after a dwell period.
#[derive(Debug, Clone, Copy, PartialEq, Eq, Structural)]
pub enum AutoDismiss {
    /// Dismiss after the given number of milliseconds of dwelling.
    After(u64),
    /// Stay until explicitly removed.
    Never,
}

/// Constraint on a notification dimension: absolute cells, or whole percent
/// of the frame's corresponding dimension.
#[derive(Debug, Clone, Copy, PartialEq, Eq, Structural)]
pub enum SizeConstraint {
    /// Absolute size in terminal cells.
    Absolute(u16),
    /// Whole percent (0 through 100) of the available frame dimension.
    Percentage(u16),
}

/// Interior padding between a notification's border and its content.
#[derive(Debug, Clone, Copy, PartialEq, Eq, Structural, Default)]
pub struct Padding {
    pub left: u16,
    pub right: u16,
    pub top: u16,
    pub bottom: u16,
}

impl Padding {
    pub fn new(left: u16, right: u16, top: u16, bottom: u16) -> (p: Padding)
        ensures
            p == (Padding { left, right, top, bottom }),
    {
        Padding { left, right, top, bottom }
    }

    /// The same padding on all four sides.
    pub fn uniform(v: u16) -> (p: Padding)
        ensures
            p == (Padding { left: v, right: v, top: v, bottom: v }),
    {
        Padding { left: v, right: v, top: v, bottom: v }
    }

    /// No padding on any side.
    pub fn zero() -> (p: Padding)
        ensures
            p == (Padding { left: 0u16, right: 0u16, top: 0u16, bottom: 0u16 }),
    {
        Padding { left: 0, right: 0, top: 0, bottom: 0 }
    }
}

/// The glyph family used for a notification's border.
#[derive(Debug, Clone, Copy, PartialEq, Eq, Hash, Structural, Default)]
pub enum BorderType {
    #[default]
    Plain,
    Rounded,
    Double,
    Thick,
}

impl BorderType {
    /// Cells a border of this type occupies on each side of the box.
    pub open spec fn spec_thickness(self) -> u16 {
        match self {
            BorderType::Plain => 1u16,
            BorderType::Rounded => 1u16,
            BorderType::Double => 2u16,
            BorderType::Thick => 2u16,
        }
    }

    /// Cells this border occupies on each side of the box: one for the
    /// single-line styles, two for double and thick.
    pub fn thickness(self) -> (t: u16)
        ensures
            t == self.spec_thickness(),
    {
        match self {
            BorderType::Plain => 1,
            BorderType::Rounded => 1,
            BorderType::Double => 2,
            BorderType::Thick => 2,
        }
    }
}

/// Errors returned while constructing a notification. All later operations
/// on a successfully built notification are infallible.
#[derive(Debug, Clone, PartialEq, Eq)]
#[non_exhaustive]
pub enum NotificationError {
    /// Invalid configuration, with the reason.
    InvalidConfig(String),
    /// Content byte length exceeds the limit: `(actual, limit)`.
    ContentTooLarge(usize, usize),
}

} // verus!
