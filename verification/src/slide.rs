//! The slide animation: off-screen start and end positions, the interpolated
//! and clipped rectangle for a sliding notification, and the border effect
//! that blanks the border edge being cut by the screen edge.

use vstd::prelude::*;

verus! {

use crate::geometry::{Position, Rect, spec_lerp, spec_clip, spec_ease_in_quad,
    spec_ease_out_quad, lemma_lerp_bounds, lemma_ease_in_quad_bounds, lemma_ease_out_quad_bounds,
    lerp, ease_in_quad, ease_out_quad, clip_to_frame};
use crate::types::{Anchor, AnimationPhase, SlideDirection};

/// Directions with a leftward component: the box crosses the frame's left
/// edge.
pub open spec fn dir_from_left(d: SlideDirection) -> bool {
    d is FromLeft || d is FromTopLeft || d is FromBottomLeft
}

/// Directions with a rightward component.
pub open spec fn dir_from_right(d: SlideDirection) -> bool {
    d is FromRight || d is FromTopRight || d is FromBottomRight
}

/// Directions with an upward component.
pub open spec fn dir_from_top(d: SlideDirection) -> bool {
    d is FromTop || d is FromTopLeft || d is FromTopRight
}

/// Directions with a downward component.
pub open spec fn dir_from_bottom(d: SlideDirection) -> bool {
    d is FromBottom || d is FromBottomLeft || d is FromBottomRight
}

/// The off-screen position for a slide direction: exactly one cell beyond
/// the relevant frame edge(s), offset by the notification's size; axes
/// without a component keep the full rectangle's own coordinate. `Default`
/// (no motion) is the full rectangle's position.
pub open spec fn spec_offscreen_x(direction: SlideDirection, full_rect: Rect, frame: Rect) -> int {
    if dir_from_left(direction) {
        frame.x - full_rect.width - 1
    } else if dir_from_right(direction) {
        frame.spec_right() + 1
    } else {
        full_rect.x as int
    }
}

/// The vertical counterpart of `spec_offscreen_x`.
pub open spec fn spec_offscreen_y(direction: SlideDirection, full_rect: Rect, frame: Rect) -> int {
    if dir_from_top(direction) {
        frame.y - full_rect.height - 1
    } else if dir_from_bottom(direction) {
        frame.spec_bottom() + 1
    } else {
        full_rect.y as int
    }
}

/// The position a sliding notification starts from (entering) or ends at
/// (leaving): one cell beyond the frame edge(s) named by the direction,
/// leaving the other axis at the full rectangle's coordinate.
pub fn slide_offscreen_position(
    _anchor: Anchor,
    direction: SlideDirection,
    full_rect: Rect,
    frame_area: Rect,
) -> (r: (i32, i32))
    requires
        frame_area.wf(),
    ensures
        r.0 == spec_offscreen_x(direction, full_rect, frame_area),
        r.1 == spec_offscreen_y(direction, full_rect, frame_area),
{
    let x: i32 = match direction {
        SlideDirection::FromLeft | SlideDirection::FromTopLeft | SlideDirection::FromBottomLeft => {
            frame_area.x as i32 - full_rect.width as i32 - 1
        },
        SlideDirection::FromRight | SlideDirection::FromTopRight
            | SlideDirection::FromBottomRight => {
            frame_area.x as i32 + frame_area.width as i32 + 1
        },
        _ => full_rect.x as i32,
    };
    let y: i32 = match direction {
        SlideDirection::FromTop | SlideDirection::FromTopLeft | SlideDirection::FromTopRight => {
            frame_area.y as i32 - full_rect.height as i32 - 1
        },
        SlideDirection::FromBottom | SlideDirection::FromBottomLeft
            | SlideDirection::FromBottomRight => {
            frame_area.y as i32 + frame_area.height as i32 + 1
        },
        _ => full_rect.y as i32,
    };
    (x, y)
}

/// For every direction with a component on an axis, the off-screen position
/// lies strictly outside the frame on that axis, by exactly the
/// notification's size plus one cell of margin.
pub proof fn lemma_offscreen_strictly_outside(
    direction: SlideDirection,
    full_rect: Rect,
    frame: Rect,
)
    ensures
        dir_from_left(direction) ==> spec_offscreen_x(direction, full_rect, frame)
            + full_rect.width == frame.x - 1,
        dir_from_right(direction) ==> spec_offscreen_x(direction, full_rect, frame)
            == frame.spec_right() + 1,
        dir_from_top(direction) ==> spec_offscreen_y(direction, full_rect, frame)
            + full_rect.height == frame.y - 1,
        dir_from_bottom(direction) ==> spec_offscreen_y(direction, full_rect, frame)
            == frame.spec_bottom() + 1,
{
}

/// The eased interpolation parameter for a sliding phase: entering eases out
/// (fast start), leaving eases in (slow start).
pub open spec fn spec_slide_eased(phase: AnimationPhase, progress: int) -> int {
    if phase is SlidingIn {
        spec_ease_out_quad(progress)
    } else {
        spec_ease_in_quad(progress)
    }
}

/// The interpolated top-left position of a sliding notification. Entering
/// runs from the start position (custom, or off-screen) to the full
/// rectangle; leaving runs from the full rectangle to the end position.
pub open spec fn spec_slide_position(
    full_rect: Rect,
    frame: Rect,
    progress: int,
    phase: AnimationPhase,
    direction: SlideDirection,
    custom_start: Option<Position>,
    custom_end: Option<Position>,
) -> (int, int) {
    let e = spec_slide_eased(phase, progress);
    if phase is SlidingIn {
        let sx = match custom_start {
            Some(p) => p.x as int,
            None => spec_offscreen_x(direction, full_rect, frame),
        };
        let sy = match custom_start {
            Some(p) => p.y as int,
            None => spec_offscreen_y(direction, full_rect, frame),
        };
        (spec_lerp(sx, full_rect.x as int, e), spec_lerp(sy, full_rect.y as int, e))
    } else {
        let ex = match custom_end {
            Some(p) => p.x as int,
            None => spec_offscreen_x(direction, full_rect, frame),
        };
        let ey = match custom_end {
            Some(p) => p.y as int,
            None => spec_offscreen_y(direction, full_rect, frame),
        };
        (spec_lerp(full_rect.x as int, ex, e), spec_lerp(full_rect.y as int, ey, e))
    }
}

/// The rectangle `slide_calculate_rect` returns: the full rectangle outside
/// the sliding phases; otherwise the full-size box at the interpolated
/// position, clipped to the frame.
pub open spec fn spec_slide_calculate_rect(
    full_rect: Rect,
    frame: Rect,
    progress: int,
    phase: AnimationPhase,
    direction: SlideDirection,
    custom_start: Option<Position>,
    custom_end: Option<Position>,
) -> Rect {
    if phase is SlidingIn || phase is SlidingOut {
        let pos = spec_slide_position(
            full_rect,
            frame,
            progress,
            phase,
            direction,
            custom_start,
            custom_end,
        );
        spec_clip(pos.0, pos.1, full_rect.width as int, full_rect.height as int, frame)
    } else {
        full_rect
    }
}

/// The interpolated top-left position of a sliding notification, for the
/// sliding phases.
fn slide_position(
    full_rect: Rect,
    frame_area: Rect,
    progress: u16,
    phase: AnimationPhase,
    direction: SlideDirection,
    custom_start: Option<Position>,
    custom_end: Option<Position>,
) -> (r: (i32, i32))
    requires
        frame_area.wf(),
        progress <= 1000,
        phase is SlidingIn || phase is SlidingOut,
    ensures
        (r.0 as int, r.1 as int) == spec_slide_position(
            full_rect,
            frame_area,
            progress as int,
            phase,
            direction,
            custom_start,
            custom_end,
        ),
        -200_000 <= r.0 <= 200_000,
        -200_000 <= r.1 <= 200_000,
{
    proof {
        lemma_ease_in_quad_bounds(progress as int);
        lemma_ease_out_quad_bounds(progress as int);
    }
    let e: u16 = match phase {
        AnimationPhase::SlidingIn => ease_out_quad(progress),
        _ => ease_in_quad(progress),
    };
    let sliding_in = match phase {
        AnimationPhase::SlidingIn => true,
        _ => false,
    };
    if sliding_in {
        let (sx, sy): (i32, i32) = match custom_start {
            Some(p) => (p.x as i32, p.y as i32),
            None => slide_offscreen_position(Anchor::TopLeft, direction, full_rect, frame_area),
        };
        (lerp(sx, full_rect.x as i32, e), lerp(sy, full_rect.y as i32, e))
    } else {
        let (ex, ey): (i32, i32) = match custom_end {
            Some(p) => (p.x as i32, p.y as i32),
            None => slide_offscreen_position(Anchor::TopLeft, direction, full_rect, frame_area),
        };
        (lerp(full_rect.x as i32, ex, e), lerp(full_rect.y as i32, ey, e))
    }
}

/// The rectangle to draw for a slide-animated notification.
///
/// During the sliding phases the full-size box is moved along the eased line
/// from its start to its end position and clipped to the frame (an entirely
/// off-screen box collapses to the empty rectangle). Every other phase
/// returns the full rectangle unchanged.
pub fn slide_calculate_rect(
    full_rect: Rect,
    frame_area: Rect,
    progress: u16,
    phase: AnimationPhase,
    anchor: Anchor,
    slide_direction: SlideDirection,
    custom_start: Option<Position>,
    custom_end: Option<Position>,
) -> (r: Rect)
    requires
        frame_area.wf(),
        progress <= 1000,
    ensures
        r == spec_slide_calculate_rect(
            full_rect,
            frame_area,
            progress as int,
            phase,
            slide_direction,
            custom_start,
            custom_end,
        ),
        !(phase is SlidingIn || phase is SlidingOut) ==> r == full_rect,
{
    let _ = anchor;
    match phase {
        AnimationPhase::SlidingIn | AnimationPhase::SlidingOut => {
            let pos = slide_position(
                full_rect,
                frame_area,
                progress,
                phase,
                slide_direction,
                custom_start,
                custom_end,
            );
            clip_to_frame(pos.0, pos.1, full_rect.width, full_rect.height, frame_area)
        },
        _ => full_rect,
    }
}

/// The glyphs of a box border: four corners, the two vertical edges, and the
/// two horizontal edges.
#[derive(Debug, Clone, Copy, PartialEq, Eq, Structural)]
pub struct BorderSet {
    pub top_left: char,
    pub top_right: char,
    pub bottom_left: char,
    pub bottom_right: char,
    pub vertical_left: char,
    pub vertical_right: char,
    pub horizontal_top: char,
    pub horizontal_bottom: char,
}

impl BorderSet {
    /// Single-line border glyphs.
    pub fn plain() -> (s: BorderSet)
        ensures
            s == BorderSet::spec_plain(),
    {
        BorderSet {
            top_left: '┌',
            top_right: '┐',
            bottom_left: '└',
            bottom_right: '┘',
            vertical_left: '│',
            vertical_right: '│',
            horizontal_top: '─',
            horizontal_bottom: '─',
        }
    }

    pub open spec fn spec_plain() -> BorderSet {
        BorderSet {
            top_left: '┌',
            top_right: '┐',
            bottom_left: '└',
            bottom_right: '┘',
            vertical_left: '│',
            vertical_right: '│',
            horizontal_top: '─',
            horizontal_bottom: '─',
        }
    }

    /// Single-line border glyphs with rounded corners.
    pub fn rounded() -> (s: BorderSet)
        ensures
            s == BorderSet::spec_rounded(),
    {
        BorderSet {
            top_left: '╭',
            top_right: '╮',
            bottom_left: '╰',
            bottom_right: '╯',
            vertical_left: '│',
            vertical_right: '│',
            horizontal_top: '─',
            horizontal_bottom: '─',
        }
    }

    pub open spec fn spec_rounded() -> BorderSet {
        BorderSet {
            top_left: '╭',
            top_right: '╮',
            bottom_left: '╰',
            bottom_right: '╯',
            vertical_left: '│',
            vertical_right: '│',
            horizontal_top: '─',
            horizontal_bottom: '─',
        }
    }

    /// Double-line border glyphs.
    pub fn double() -> (s: BorderSet)
        ensures
            s == BorderSet::spec_double(),
    {
        BorderSet {
            top_left: '╔',
            top_right: '╗',
            bottom_left: '╚',
            bottom_right: '╝',
            vertical_left: '║',
            vertical_right: '║',
            horizontal_top: '═',
            horizontal_bottom: '═',
        }
    }

    pub open spec fn spec_double() -> BorderSet {
        BorderSet {
            top_left: '╔',
            top_right: '╗',
            bottom_left: '╚',
            bottom_right: '╝',
            vertical_left: '║',
            vertical_right: '║',
            horizontal_top: '═',
            horizontal_bottom: '═',
        }
    }

    /// Heavy-line border glyphs.
    pub fn thick() -> (s: BorderSet)
        ensures
            s == BorderSet::spec_thick(),
    {
        BorderSet {
            top_left: '┏',
            top_right: '┓',
            bottom_left: '┗',
            bottom_right: '┛',
            vertical_left: '┃',
            vertical_right: '┃',
            horizontal_top: '━',
            horizontal_bottom: '━',
        }
    }

    pub open spec fn spec_thick() -> BorderSet {
        BorderSet {
            top_left: '┏',
            top_right: '┓',
            bottom_left: '┗',
            bottom_right: '┛',
            vertical_left: '┃',
            vertical_right: '┃',
            horizontal_top: '━',
            horizontal_bottom: '━',
        }
    }
}

/// How many cells of the box lie beyond the frame's left edge when its
/// left-most column is `px`.
pub open spec fn spec_cut_left(px: int, frame: Rect) -> int {
    vstd::math::max(frame.x - px, 0)
}

/// How many cells of the box lie beyond the frame's right edge.
pub open spec fn spec_cut_right(px: int, w: int, frame: Rect) -> int {
    vstd::math::max(px + w - frame.spec_right(), 0)
}

/// How many cells of the box lie beyond the frame's top edge.
pub open spec fn spec_cut_top(py: int, frame: Rect) -> int {
    vstd::math::max(frame.y - py, 0)
}

/// How many cells of the box lie beyond the frame's bottom edge.
pub open spec fn spec_cut_bottom(py: int, h: int, frame: Rect) -> int {
    vstd::math::max(py + h - frame.spec_bottom(), 0)
}

/// Blank the left border edge and straighten its corners into the
/// horizontal edges of the base set.
pub open spec fn spec_blank_left(s: BorderSet, base: BorderSet) -> BorderSet {
    BorderSet {
        vertical_left: ' ',
        top_left: base.horizontal_top,
        bottom_left: base.horizontal_bottom,
        ..s
    }
}

/// Blank the right border edge and straighten its corners.
pub open spec fn spec_blank_right(s: BorderSet, base: BorderSet) -> BorderSet {
    BorderSet {
        vertical_right: ' ',
        top_right: base.horizontal_top,
        bottom_right: base.horizontal_bottom,
        ..s
    }
}

/// Blank the top border edge and straighten its corners into the vertical
/// edges of the base set.
pub open spec fn spec_blank_top(s: BorderSet, base: BorderSet) -> BorderSet {
    BorderSet {
        horizontal_top: ' ',
        top_left: base.vertical_left,
        top_right: base.vertical_right,
        ..s
    }
}

/// Blank the bottom border edge and straighten its corners.
pub open spec fn spec_blank_bottom(s: BorderSet, base: BorderSet) -> BorderSet {
    BorderSet {
        horizontal_bottom: ' ',
        bottom_left: base.vertical_left,
        bottom_right: base.vertical_right,
        ..s
    }
}

/// Whether the border effect is active on the axis edge named by the slide
/// direction: only while sliding, and only once the box is cut deeper by
/// that frame edge than the resting rectangle itself would be.
pub open spec fn spec_edge_active_left(
    pos: (int, int),
    full_rect: Rect,
    frame: Rect,
    direction: SlideDirection,
) -> bool {
    dir_from_left(direction) && spec_cut_left(pos.0, frame) > spec_cut_left(
        full_rect.x as int,
        frame,
    )
}

pub open spec fn spec_edge_active_right(
    pos: (int, int),
    full_rect: Rect,
    frame: Rect,
    direction: SlideDirection,
) -> bool {
    dir_from_right(direction) && spec_cut_right(pos.0, full_rect.width as int, frame)
        > spec_cut_right(full_rect.x as int, full_rect.width as int, frame)
}

pub open spec fn spec_edge_active_top(
    pos: (int, int),
    full_rect: Rect,
    frame: Rect,
    direction: SlideDirection,
) -> bool {
    dir_from_top(direction) && spec_cut_top(pos.1, frame) > spec_cut_top(full_rect.y as int, frame)
}

pub open spec fn spec_edge_active_bottom(
    pos: (int, int),
    full_rect: Rect,
    frame: Rect,
    direction: SlideDirection,
) -> bool {
    dir_from_bottom(direction) && spec_cut_bottom(pos.1, full_rect.height as int, frame)
        > spec_cut_bottom(full_rect.y as int, full_rect.height as int, frame)
}

/// The border set `slide_apply_border_effect` returns.
pub open spec fn spec_slide_apply_border_effect(
    base_set: BorderSet,
    direction: SlideDirection,
    progress: int,
    phase: AnimationPhase,
    full_rect: Rect,
    custom_start: Option<Position>,
    custom_end: Option<Position>,
    frame: Rect,
) -> BorderSet {
    if phase is SlidingIn || phase is SlidingOut {
        let pos = spec_slide_position(
            full_rect,
            frame,
            progress,
            phase,
            direction,
            custom_start,
            custom_end,
        );
        let s1 = if spec_edge_active_left(pos, full_rect, frame, direction) {
            spec_blank_left(base_set, base_set)
        } else {
            base_set
        };
        let s2 = if spec_edge_active_right(pos, full_rect, frame, direction) {
            spec_blank_right(s1, base_set)
        } else {
            s1
        };
        let s3 = if spec_edge_active_top(pos, full_rect, frame, direction) {
            spec_blank_top(s2, base_set)
        } else {
            s2
        };
        if spec_edge_active_bottom(pos, full_rect, frame, direction) {
            spec_blank_bottom(s3, base_set)
        } else {
            s3
        }
    } else {
        base_set
    }
}

/// Blank the border glyphs on the frame edge that is cutting the sliding box.
///
/// The effect fires only during the sliding phases, only on edges where the
/// slide direction has a component, and only once the box has moved deeper
/// past that frame edge than its resting rectangle reaches; a path that
/// never leaves the frame is never altered. The blanked edge's corner
/// glyphs are straightened into the perpendicular edge glyphs of the base
/// set.
pub fn slide_apply_border_effect(
    base_set: BorderSet,
    anchor: Anchor,
    direction: SlideDirection,
    progress: u16,
    phase: AnimationPhase,
    full_rect: Rect,
    custom_start: Option<Position>,
    custom_end: Option<Position>,
    frame_area: Rect,
) -> (r: BorderSet)
    requires
        frame_area.wf(),
        progress <= 1000,
    ensures
        r == spec_slide_apply_border_effect(
            base_set,
            direction,
            progress as int,
            phase,
            full_rect,
            custom_start,
            custom_end,
            frame_area,
        ),
        !(phase is SlidingIn || phase is SlidingOut) ==> r == base_set,
{
    let _ = anchor;
    let is_sliding = match phase {
        AnimationPhase::SlidingIn | AnimationPhase::SlidingOut => true,
        _ => false,
    };
    if !is_sliding {
        return base_set;
    }
    let pos = slide_position(
        full_rect,
        frame_area,
        progress,
        phase,
        direction,
        custom_start,
        custom_end,
    );
    let frame_left: i32 = frame_area.x as i32;
    let frame_right: i32 = frame_area.x as i32 + frame_area.width as i32;
    let frame_top: i32 = frame_area.y as i32;
    let frame_bottom: i32 = frame_area.y as i32 + frame_area.height as i32;
    let w: i32 = full_rect.width as i32;
    let h: i32 = full_rect.height as i32;

    let cut_left_now: i32 = if frame_left - pos.0 > 0 { frame_left - pos.0 } else { 0 };
    let cut_left_full: i32 = if frame_left - full_rect.x as i32 > 0 {
        frame_left - full_rect.x as i32
    } else {
        0
    };
    let cut_right_now: i32 = if pos.0 + w - frame_right > 0 { pos.0 + w - frame_right } else { 0 };
    let cut_right_full: i32 = if full_rect.x as i32 + w - frame_right > 0 {
        full_rect.x as i32 + w - frame_right
    } else {
        0
    };
    let cut_top_now: i32 = if frame_top - pos.1 > 0 { frame_top - pos.1 } else { 0 };
    let cut_top_full: i32 = if frame_top - full_rect.y as i32 > 0 {
        frame_top - full_rect.y as i32
    } else {
        0
    };
    let cut_bottom_now: i32 = if pos.1 + h - frame_bottom > 0 { pos.1 + h - frame_bottom } else { 0 };
    let cut_bottom_full: i32 = if full_rect.y as i32 + h - frame_bottom > 0 {
        full_rect.y as i32 + h - frame_bottom
    } else {
        0
    };

    let left_component = match direction {
        SlideDirection::FromLeft | SlideDirection::FromTopLeft
            | SlideDirection::FromBottomLeft => true,
        _ => false,
    };
    let right_component = match direction {
        SlideDirection::FromRight | SlideDirection::FromTopRight
            | SlideDirection::FromBottomRight => true,
        _ => false,
    };
    let top_component = match direction {
        SlideDirection::FromTop | SlideDirection::FromTopLeft
            | SlideDirection::FromTopRight => true,
        _ => false,
    };
    let bottom_component = match direction {
        SlideDirection::FromBottom | SlideDirection::FromBottomLeft
            | SlideDirection::FromBottomRight => true,
        _ => false,
    };

    let mut result = base_set;
    if left_component && cut_left_now > cut_left_full {
        result = BorderSet {
            vertical_left: ' ',
            top_left: base_set.horizontal_top,
            bottom_left: base_set.horizontal_bottom,
            ..result
        };
    }
    if right_component && cut_right_now > cut_right_full {
        result = BorderSet {
            vertical_right: ' ',
            top_right: base_set.horizontal_top,
            bottom_right: base_set.horizontal_bottom,
            ..result
        };
    }
    if top_component && cut_top_now > cut_top_full {
        result = BorderSet {
            horizontal_top: ' ',
            top_left: base_set.vertical_left,
            top_right: base_set.vertical_right,
            ..result
        };
    }
    if bottom_component && cut_bottom_now > cut_bottom_full {
        result = BorderSet {
            horizontal_bottom: ' ',
            bottom_left: base_set.vertical_left,
            bottom_right: base_set.vertical_right,
            ..result
        };
    }
    result
}

} // verus!
