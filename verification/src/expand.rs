//! The expand/collapse animation: the rectangle grows from (or shrinks back
//! to) the minimum box size, keeping the full rectangle's center fixed.

use vstd::prelude::*;

verus! {

use crate::geometry::{Rect, spec_lerp, lemma_lerp_bounds, lerp};
use crate::types::AnimationPhase;

/// The smallest box the animation contracts to, in cells per side.
pub const MIN_BOX_SIZE: u16 = 3;

/// A dimension interpolated between the minimum size and the full size:
/// growing while expanding, shrinking while collapsing.
pub open spec fn spec_expand_dim(full: int, progress: int, expanding: bool) -> int {
    if expanding {
        spec_lerp(MIN_BOX_SIZE as int, full, progress)
    } else {
        spec_lerp(full, MIN_BOX_SIZE as int, progress)
    }
}

/// The coordinate that centers a box of size `dim` on the center of the full
/// box at `full_pos` with size `full_dim`, rounded to the nearest cell
/// (halves up) and floored at zero.
pub open spec fn spec_center_coord(full_pos: int, full_dim: int, dim: int) -> int {
    vstd::math::max((2 * full_pos + full_dim - dim + 1) / 2, 0)
}

/// The rectangle `calculate_rect` returns for the expand/collapse animation.
pub open spec fn spec_expand_calculate_rect(
    full_rect: Rect,
    phase: AnimationPhase,
    progress: int,
) -> Rect {
    if phase is Expanding || phase is Collapsing {
        let w = spec_expand_dim(full_rect.width as int, progress, phase is Expanding);
        let h = spec_expand_dim(full_rect.height as int, progress, phase is Expanding);
        Rect {
            x: spec_center_coord(full_rect.x as int, full_rect.width as int, w) as u16,
            y: spec_center_coord(full_rect.y as int, full_rect.height as int, h) as u16,
            width: w as u16,
            height: h as u16,
        }
    } else {
        full_rect
    }
}

/// The rectangle to draw for an expand/collapse-animated notification.
///
/// While expanding, the width and height are interpolated from the minimum
/// box size up to the full rectangle's size; while collapsing, back down.
/// The box keeps the full rectangle's center (to the nearest half cell).
/// Every other phase returns the full rectangle unchanged.
pub fn calculate_rect(
    full_rect: Rect,
    frame_area: Rect,
    phase: AnimationPhase,
    progress: u16,
) -> (r: Rect)
    requires
        full_rect.wf(),
        progress <= 1000,
    ensures
        r == spec_expand_calculate_rect(full_rect, phase, progress as int),
        !(phase is Expanding || phase is Collapsing) ==> r == full_rect,
{
    let _ = frame_area;
    let expanding = match phase {
        AnimationPhase::Expanding => true,
        _ => false,
    };
    let collapsing = match phase {
        AnimationPhase::Collapsing => true,
        _ => false,
    };
    if !expanding && !collapsing {
        return full_rect;
    }
    proof {
        lemma_lerp_bounds(MIN_BOX_SIZE as int, full_rect.width as int, progress as int);
        lemma_lerp_bounds(full_rect.width as int, MIN_BOX_SIZE as int, progress as int);
        lemma_lerp_bounds(MIN_BOX_SIZE as int, full_rect.height as int, progress as int);
        lemma_lerp_bounds(full_rect.height as int, MIN_BOX_SIZE as int, progress as int);
    }
    let w: i32 = if expanding {
        lerp(MIN_BOX_SIZE as i32, full_rect.width as i32, progress)
    } else {
        lerp(full_rect.width as i32, MIN_BOX_SIZE as i32, progress)
    };
    let h: i32 = if expanding {
        lerp(MIN_BOX_SIZE as i32, full_rect.height as i32, progress)
    } else {
        lerp(full_rect.height as i32, MIN_BOX_SIZE as i32, progress)
    };
    let nx: i32 = 2 * full_rect.x as i32 + full_rect.width as i32 - w + 1;
    let ny: i32 = 2 * full_rect.y as i32 + full_rect.height as i32 - h + 1;
    let x: i32 = if nx <= 0 { 0 } else { nx / 2 };
    let y: i32 = if ny <= 0 { 0 } else { ny / 2 };
    proof {
        if nx > 0 {
            assert(x == spec_center_coord(full_rect.x as int, full_rect.width as int, w as int));
        } else {
            vstd::arithmetic::div_mod::lemma_div_is_ordered(nx as int, 0, 2);
        }
        if ny > 0 {
            assert(y == spec_center_coord(full_rect.y as int, full_rect.height as int, h as int));
        } else {
            vstd::arithmetic::div_mod::lemma_div_is_ordered(ny as int, 0, 2);
        }
    }
    Rect { x: x as u16, y: y as u16, width: w as u16, height: h as u16 }
}

} // verus!
