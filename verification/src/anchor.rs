//! The anchor resolver: mapping the nine named anchors to concrete frame
//! positions, resolving default slide directions, and placing a box of a
//! given size at an anchor position within the frame.

use vstd::prelude::*;

verus! {

use crate::geometry::{Position, Rect};
use crate::types::{Anchor, SlideDirection};

/// Anchors in the left column of the 3-by-3 grid.
pub open spec fn anchor_is_left(a: Anchor) -> bool {
    a is TopLeft || a is MiddleLeft || a is BottomLeft
}

/// Anchors in the center column of the 3-by-3 grid.
pub open spec fn anchor_is_hcenter(a: Anchor) -> bool {
    a is TopCenter || a is MiddleCenter || a is BottomCenter
}

/// Anchors in the right column of the 3-by-3 grid.
pub open spec fn anchor_is_right(a: Anchor) -> bool {
    a is TopRight || a is MiddleRight || a is BottomRight
}

/// Anchors in the top row of the 3-by-3 grid.
pub open spec fn anchor_is_top(a: Anchor) -> bool {
    a is TopLeft || a is TopCenter || a is TopRight
}

/// Anchors in the middle row of the 3-by-3 grid.
pub open spec fn anchor_is_middle(a: Anchor) -> bool {
    a is MiddleLeft || a is MiddleCenter || a is MiddleRight
}

/// Anchors in the bottom row of the 3-by-3 grid.
pub open spec fn anchor_is_bottom(a: Anchor) -> bool {
    a is BottomLeft || a is BottomCenter || a is BottomRight
}

/// The column coordinate of an anchor within a frame: the left edge, the
/// horizontal midpoint (integer division), or the right-most column.
pub open spec fn spec_anchor_x(anchor: Anchor, frame: Rect) -> int {
    if anchor_is_left(anchor) {
        frame.x as int
    } else if anchor_is_hcenter(anchor) {
        frame.x + frame.width / 2
    } else {
        frame.x + frame.width - 1
    }
}

/// The row coordinate of an anchor within a frame: the top edge, the
/// vertical midpoint (integer division), or the bottom-most row.
pub open spec fn spec_anchor_y(anchor: Anchor, frame: Rect) -> int {
    if anchor_is_top(anchor) {
        frame.y as int
    } else if anchor_is_middle(anchor) {
        frame.y + frame.height / 2
    } else {
        frame.y + frame.height - 1
    }
}

/// The concrete cell position of an anchor within a non-empty frame.
pub open spec fn spec_anchor_position(anchor: Anchor, frame: Rect) -> Position {
    Position { x: spec_anchor_x(anchor, frame) as u16, y: spec_anchor_y(anchor, frame) as u16 }
}

/// The concrete cell position of an anchor within a non-empty frame. The
/// result always lies within the frame.
pub fn calculate_anchor_position(anchor: Anchor, frame: Rect) -> (p: Position)
    requires
        frame.wf(),
        frame.width >= 1,
        frame.height >= 1,
    ensures
        p == spec_anchor_position(anchor, frame),
        p.x == spec_anchor_x(anchor, frame),
        p.y == spec_anchor_y(anchor, frame),
        frame.x <= p.x < frame.spec_right(),
        frame.y <= p.y < frame.spec_bottom(),
{
    let x: u16 = match anchor {
        Anchor::TopLeft | Anchor::MiddleLeft | Anchor::BottomLeft => frame.x,
        Anchor::TopCenter | Anchor::MiddleCenter | Anchor::BottomCenter => frame.x + frame.width
            / 2,
        Anchor::TopRight | Anchor::MiddleRight | Anchor::BottomRight => frame.x + frame.width - 1,
    };
    let y: u16 = match anchor {
        Anchor::TopLeft | Anchor::TopCenter | Anchor::TopRight => frame.y,
        Anchor::MiddleLeft | Anchor::MiddleCenter | Anchor::MiddleRight => frame.y + frame.height
            / 2,
        Anchor::BottomLeft | Anchor::BottomCenter | Anchor::BottomRight => frame.y + frame.height
            - 1,
    };
    Position { x, y }
}

/// Every anchor position lies within (or exactly on the boundary of) its
/// frame, and is a pure function of its inputs.
pub proof fn lemma_anchor_position_in_frame(anchor: Anchor, frame: Rect)
    requires
        frame.wf(),
        frame.width >= 1,
        frame.height >= 1,
    ensures
        frame.x <= spec_anchor_x(anchor, frame) < frame.spec_right(),
        frame.y <= spec_anchor_y(anchor, frame) < frame.spec_bottom(),
{
}

/// The slide direction implied by an anchor: corners slide diagonally,
/// edge-center anchors slide perpendicular to their edge, and the frame
/// center (with no natural direction) slides from the left.
pub open spec fn spec_default_direction(anchor: Anchor) -> SlideDirection {
    match anchor {
        Anchor::TopLeft => SlideDirection::FromTopLeft,
        Anchor::TopCenter => SlideDirection::FromTop,
        Anchor::TopRight => SlideDirection::FromTopRight,
        Anchor::MiddleLeft => SlideDirection::FromLeft,
        Anchor::MiddleCenter => SlideDirection::FromLeft,
        Anchor::MiddleRight => SlideDirection::FromRight,
        Anchor::BottomLeft => SlideDirection::FromBottomLeft,
        Anchor::BottomCenter => SlideDirection::FromBottom,
        Anchor::BottomRight => SlideDirection::FromBottomRight,
    }
}

/// A slide direction with `Default` resolved to the anchor's own direction.
pub open spec fn spec_resolved_direction(direction: SlideDirection, anchor: Anchor) -> SlideDirection {
    if direction is Default {
        spec_default_direction(anchor)
    } else {
        direction
    }
}

/// Resolve a slide direction against an anchor: an explicit direction is
/// never altered; `Default` becomes the anchor's own direction.
pub fn resolve_slide_direction(direction: SlideDirection, anchor: Anchor) -> (r: SlideDirection)
    ensures
        r == spec_resolved_direction(direction, anchor),
        direction is Default ==> r == spec_default_direction(anchor),
        !(direction is Default) ==> r == direction,
{
    match direction {
        SlideDirection::Default => match anchor {
            Anchor::TopLeft => SlideDirection::FromTopLeft,
            Anchor::TopCenter => SlideDirection::FromTop,
            Anchor::TopRight => SlideDirection::FromTopRight,
            Anchor::MiddleLeft => SlideDirection::FromLeft,
            Anchor::MiddleCenter => SlideDirection::FromLeft,
            Anchor::MiddleRight => SlideDirection::FromRight,
            Anchor::BottomLeft => SlideDirection::FromBottomLeft,
            Anchor::BottomCenter => SlideDirection::FromBottom,
            Anchor::BottomRight => SlideDirection::FromBottomRight,
        },
        d => d,
    }
}

/// Clamp `v` into `lo..=hi` (requires `lo <= hi`).
pub open spec fn spec_clamp(v: int, lo: int, hi: int) -> int {
    if v < lo {
        lo
    } else if v > hi {
        hi
    } else {
        v
    }
}

/// The column where a box of clamped width `w` is placed against an anchor
/// column position `ax`, before clamping to the frame: left-aligned boxes
/// are pushed right by the exterior padding, right-aligned boxes are pushed
/// left, and centered boxes ignore the padding.
pub open spec fn spec_align_x(anchor: Anchor, ax: int, w: int, pad: int) -> int {
    if anchor_is_left(anchor) {
        ax + pad
    } else if anchor_is_hcenter(anchor) {
        ax - w / 2
    } else {
        ax - (w - 1) - pad
    }
}

/// The row counterpart of `spec_align_x`.
pub open spec fn spec_align_y(anchor: Anchor, ay: int, h: int, pad: int) -> int {
    if anchor_is_top(anchor) {
        ay + pad
    } else if anchor_is_middle(anchor) {
        ay - h / 2
    } else {
        ay - (h - 1) - pad
    }
}

/// The rectangle `calculate_rect` returns: size clamped to the frame, then
/// aligned to the anchor position, then clamped to stay inside the frame.
pub open spec fn spec_calculate_rect(
    anchor: Anchor,
    anchor_pos: Position,
    width: int,
    height: int,
    frame: Rect,
    pad: int,
) -> Rect {
    let w = vstd::math::min(width, frame.width as int);
    let h = vstd::math::min(height, frame.height as int);
    let x = spec_clamp(
        spec_align_x(anchor, anchor_pos.x as int, w, pad),
        frame.x as int,
        frame.spec_right() - w,
    );
    let y = spec_clamp(
        spec_align_y(anchor, anchor_pos.y as int, h, pad),
        frame.y as int,
        frame.spec_bottom() - h,
    );
    Rect { x: x as u16, y: y as u16, width: w as u16, height: h as u16 }
}

/// Place a box of the given size at an anchor position within the frame.
///
/// The size is clamped to the frame's size; the box is aligned so that the
/// anchor position touches the matching corner, edge midpoint or center of
/// the box; exterior padding pushes edge-aligned boxes inward (centered axes
/// ignore it); and the final position is clamped so the whole box lies
/// within the frame.
pub fn calculate_rect(
    anchor: Anchor,
    anchor_pos: Position,
    width: u16,
    height: u16,
    frame: Rect,
    exterior_padding: u16,
) -> (r: Rect)
    requires
        frame.wf(),
    ensures
        r == spec_calculate_rect(
            anchor,
            anchor_pos,
            width as int,
            height as int,
            frame,
            exterior_padding as int,
        ),
        r.wf(),
        frame.x <= r.x,
        r.spec_right() <= frame.spec_right(),
        frame.y <= r.y,
        r.spec_bottom() <= frame.spec_bottom(),
        r.width == vstd::math::min(width as int, frame.width as int),
        r.height == vstd::math::min(height as int, frame.height as int),
{
    let w: u16 = if width < frame.width { width } else { frame.width };
    let h: u16 = if height < frame.height { height } else { frame.height };
    let pad: i32 = exterior_padding as i32;

    let base_x: i32 = match anchor {
        Anchor::TopLeft | Anchor::MiddleLeft | Anchor::BottomLeft => anchor_pos.x as i32 + pad,
        Anchor::TopCenter | Anchor::MiddleCenter | Anchor::BottomCenter => anchor_pos.x as i32 - (w
            / 2) as i32,
        Anchor::TopRight | Anchor::MiddleRight | Anchor::BottomRight => anchor_pos.x as i32 - (w
            as i32 - 1) - pad,
    };
    let base_y: i32 = match anchor {
        Anchor::TopLeft | Anchor::TopCenter | Anchor::TopRight => anchor_pos.y as i32 + pad,
        Anchor::MiddleLeft | Anchor::MiddleCenter | Anchor::MiddleRight => anchor_pos.y as i32 - (h
            / 2) as i32,
        Anchor::BottomLeft | Anchor::BottomCenter | Anchor::BottomRight => anchor_pos.y as i32 - (h
            as i32 - 1) - pad,
    };

    let lo_x: i32 = frame.x as i32;
    let hi_x: i32 = frame.x as i32 + frame.width as i32 - w as i32;
    let x: i32 = if base_x < lo_x {
        lo_x
    } else if base_x > hi_x {
        hi_x
    } else {
        base_x
    };
    let lo_y: i32 = frame.y as i32;
    let hi_y: i32 = frame.y as i32 + frame.height as i32 - h as i32;
    let y: i32 = if base_y < lo_y {
        lo_y
    } else if base_y > hi_y {
        hi_y
    } else {
        base_y
    };
    Rect { x: x as u16, y: y as u16, width: w, height: h }
}

} // verus!
