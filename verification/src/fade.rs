//! The fade animation: a pure color effect. The rectangle never changes;
//! the frame (border) foreground blends between black and the base color,
//! and the content foreground between black and white.

use vstd::prelude::*;

verus! {

use crate::color::{Color, spec_interpolate_color, interpolate_color};
use crate::geometry::Rect;
use crate::types::AnimationPhase;

/// The rectangle to draw for a fade-animated notification: always the full
/// rectangle, whatever the phase, progress or frame.
pub fn calculate_rect(
    full_rect: Rect,
    frame_area: Rect,
    phase: AnimationPhase,
    progress: u16,
) -> (r: Rect)
    ensures
        r == full_rect,
{
    let _ = frame_area;
    let _ = phase;
    let _ = progress;
    full_rect
}

/// The frame-foreground color of a fading notification: black blending up to
/// the base color while entering, the base color blending down to black
/// while leaving, the base color untouched otherwise. The sliding phases
/// blend too, so slide-and-fade combinations dim in sync with position.
pub open spec fn spec_fade_frame_foreground(
    base_fg: Option<Color>,
    phase: AnimationPhase,
    progress: int,
) -> Option<Color> {
    if phase is FadingIn || phase is SlidingIn {
        spec_interpolate_color(Some(Color::Black), base_fg, progress, true)
    } else if phase is FadingOut || phase is SlidingOut {
        spec_interpolate_color(base_fg, Some(Color::Black), progress, false)
    } else {
        base_fg
    }
}

/// The content-foreground color of a fading notification: always achromatic,
/// black blending to white while entering and white back to black while
/// leaving, plain white otherwise, whatever the configured base color.
pub open spec fn spec_fade_content_foreground(
    phase: AnimationPhase,
    progress: int,
) -> Option<Color> {
    if phase is FadingIn || phase is SlidingIn {
        spec_interpolate_color(Some(Color::Black), Some(Color::White), progress, true)
    } else if phase is FadingOut || phase is SlidingOut {
        spec_interpolate_color(Some(Color::White), Some(Color::Black), progress, false)
    } else {
        Some(Color::White)
    }
}

/// The fade animation handler: computes the color blend of the fading (and
/// sliding, for combined effects) phases.
pub struct FadeHandler;

impl FadeHandler {
    /// The frame (border) foreground color for the given phase and progress.
    pub fn interpolate_frame_foreground(
        &self,
        base_fg: Option<Color>,
        phase: AnimationPhase,
        progress: u16,
    ) -> (r: Option<Color>)
        requires
            progress <= 1000,
        ensures
            r == spec_fade_frame_foreground(base_fg, phase, progress as int),
    {
        match phase {
            AnimationPhase::FadingIn | AnimationPhase::SlidingIn => interpolate_color(
                Some(Color::Black),
                base_fg,
                progress,
                true,
            ),
            AnimationPhase::FadingOut | AnimationPhase::SlidingOut => interpolate_color(
                base_fg,
                Some(Color::Black),
                progress,
                false,
            ),
            _ => base_fg,
        }
    }

    /// The content foreground color for the given phase and progress. The
    /// configured base color is ignored: content fading is achromatic.
    pub fn interpolate_content_foreground(
        &self,
        base_fg: Option<Color>,
        phase: AnimationPhase,
        progress: u16,
    ) -> (r: Option<Color>)
        requires
            progress <= 1000,
        ensures
            r == spec_fade_content_foreground(phase, progress as int),
    {
        let _ = base_fg;
        match phase {
            AnimationPhase::FadingIn | AnimationPhase::SlidingIn => interpolate_color(
                Some(Color::Black),
                Some(Color::White),
                progress,
                true,
            ),
            AnimationPhase::FadingOut | AnimationPhase::SlidingOut => interpolate_color(
                Some(Color::White),
                Some(Color::Black),
                progress,
                false,
            ),
            _ => Some(Color::White),
        }
    }
}

} // verus!
