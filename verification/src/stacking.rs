//! The stacking orchestrator: a non-overlapping, recency-ordered vertical
//! layout for the notifications sharing one anchor.
//!
//! The orchestrator is a pure function from a snapshot of states to a
//! layout; it never changes any notification's state. The whole algorithm is
//! mirrored by specification functions, and the executable function returns
//! exactly their value: collect the eligible states the anchor's list names,
//! order them newest first, cut to the concurrency limit, and place them
//! walking away from the anchor until the frame runs out.

use vstd::prelude::*;

verus! {

use crate::anchor::{anchor_is_bottom, calculate_anchor_position, calculate_rect,
    spec_anchor_position, spec_calculate_rect};
use crate::geometry::Rect;
use crate::state::NotificationState;
use crate::types::{Anchor, AnimationPhase};

/// One slot of a computed stacking layout: which notification and where.
#[derive(Debug, Clone, Copy, PartialEq, Eq, Structural)]
pub struct StackedNotification {
    /// The notification's identifier.
    pub id: u64,
    /// The cells the notification occupies.
    pub rect: Rect,
    /// The notification's creation ordinal (newest first in a layout).
    pub created_at: u64,
}

/// Only actively animating or dwelling notifications occupy stack space.
pub open spec fn spec_eligible(s: NotificationState) -> bool {
    !(s.current_phase is Pending) && !(s.current_phase is Finished)
}

/// A working entry of the layout computation: the stacking-relevant fields
/// of one eligible notification.
#[derive(Debug, Clone, Copy, PartialEq, Eq, Structural)]
pub struct StackEntry {
    pub id: u64,
    pub created: u64,
    pub width: u16,
    pub height: u16,
    pub pad: u16,
}

/// The stacking-relevant fields of a state.
pub open spec fn spec_entry_of(s: NotificationState) -> StackEntry {
    StackEntry {
        id: s.id,
        created: s.created_at,
        width: s.full_rect.width,
        height: s.full_rect.height,
        pad: s.exterior_padding,
    }
}

/// The first index at or after `i` whose state carries the identifier.
pub open spec fn spec_find_from(states: Seq<NotificationState>, id: u64, i: int) -> Option<int>
    decreases states.len() - i,
{
    if i < 0 || i >= states.len() {
        None
    } else if states[i].id == id {
        Some(i)
    } else {
        spec_find_from(states, id, i + 1)
    }
}

/// The first index whose state carries the identifier.
pub open spec fn spec_find(states: Seq<NotificationState>, id: u64) -> Option<int> {
    spec_find_from(states, id, 0)
}

/// The eligible entries the anchor's identifier list names, in list order:
/// each identifier resolves to its first carrying state, and only states
/// that are neither `Pending` nor `Finished` contribute.
pub open spec fn spec_collect(states: Seq<NotificationState>, ids: Seq<u64>) -> Seq<StackEntry>
    decreases ids.len(),
{
    if ids.len() == 0 {
        Seq::empty()
    } else {
        let pre = spec_collect(states, ids.drop_last());
        match spec_find(states, ids.last()) {
            Some(j) => if spec_eligible(states[j]) {
                pre.push(spec_entry_of(states[j]))
            } else {
                pre
            },
            None => pre,
        }
    }
}

/// The index of the newest entry, scanning from `k` with `best` the newest
/// seen so far; only a strictly newer entry replaces the current best, so
/// ties keep the earliest index.
pub open spec fn spec_best_from(entries: Seq<StackEntry>, k: int, best: int) -> int
    decreases entries.len() - k,
{
    if k < 0 || !(0 <= best < entries.len()) || k >= entries.len() {
        best
    } else if entries[k].created > entries[best].created {
        spec_best_from(entries, k + 1, k)
    } else {
        spec_best_from(entries, k + 1, best)
    }
}

/// The index of the newest entry (ties keep the earliest index).
pub open spec fn spec_imax(entries: Seq<StackEntry>) -> int {
    spec_best_from(entries, 1, 0)
}

/// The entries ordered newest first: repeatedly extract the newest of what
/// remains (ties resolved toward the earlier entry).
pub open spec fn spec_sort_desc(entries: Seq<StackEntry>) -> Seq<StackEntry>
    decreases entries.len(),
{
    if entries.len() == 0 {
        Seq::empty()
    } else {
        let i = spec_imax(entries);
        if 0 <= i < entries.len() {
            seq![entries[i]] + spec_sort_desc(entries.remove(i))
        } else {
            entries
        }
    }
}

/// The entries cut to the concurrency limit, keeping the front (the newest).
pub open spec fn spec_cut(entries: Seq<StackEntry>, max: Option<usize>) -> Seq<StackEntry> {
    match max {
        Some(k) => if entries.len() > k {
            entries.subrange(0, k as int)
        } else {
            entries
        },
        None => entries,
    }
}

/// The placement walk from entry `k` on, with `prev` the slot placed before
/// it (`None` for the first). The first slot takes the anchor resolver's
/// rectangle whole; each further slot keeps that placement's column but
/// moves one cell of spacing past the previous slot — downward from top and
/// middle anchors, upward from bottom ones — and the walk stops before the
/// first slot that would leave the frame.
pub open spec fn spec_place_from(
    sorted: Seq<StackEntry>,
    k: int,
    prev: Option<StackedNotification>,
    anchor: Anchor,
    frame: Rect,
) -> Seq<StackedNotification>
    decreases sorted.len() - k,
{
    if k < 0 || k >= sorted.len() {
        Seq::empty()
    } else {
        let e = sorted[k];
        let base = spec_calculate_rect(
            anchor,
            spec_anchor_position(anchor, frame),
            e.width as int,
            e.height as int,
            frame,
            e.pad as int,
        );
        match prev {
            None => {
                let slot = StackedNotification { id: e.id, rect: base, created_at: e.created };
                seq![slot] + spec_place_from(sorted, k + 1, Some(slot), anchor, frame)
            },
            Some(p) => {
                if !anchor_is_bottom(anchor) {
                    let y = p.rect.y + p.rect.height + 1;
                    if y + base.height <= frame.spec_bottom() {
                        let slot = StackedNotification {
                            id: e.id,
                            rect: Rect {
                                x: base.x,
                                y: y as u16,
                                width: base.width,
                                height: base.height,
                            },
                            created_at: e.created,
                        };
                        seq![slot] + spec_place_from(sorted, k + 1, Some(slot), anchor, frame)
                    } else {
                        Seq::empty()
                    }
                } else {
                    let top = p.rect.y - 1 - base.height;
                    if top >= frame.y {
                        let slot = StackedNotification {
                            id: e.id,
                            rect: Rect {
                                x: base.x,
                                y: top as u16,
                                width: base.width,
                                height: base.height,
                            },
                            created_at: e.created,
                        };
                        seq![slot] + spec_place_from(sorted, k + 1, Some(slot), anchor, frame)
                    } else {
                        Seq::empty()
                    }
                }
            },
        }
    }
}

/// The whole stacking layout: the eligible entries the list names, ordered
/// newest first, cut to the limit, and placed until the frame runs out.
pub open spec fn spec_stacking(
    states: Seq<NotificationState>,
    ids: Seq<u64>,
    anchor: Anchor,
    frame: Rect,
    max_concurrent: Option<usize>,
) -> Seq<StackedNotification> {
    spec_place_from(
        spec_cut(spec_sort_desc(spec_collect(states, ids)), max_concurrent),
        0,
        None,
        anchor,
        frame,
    )
}

/// The entry carries exactly the stacking-relevant fields of some eligible
/// state whose identifier the anchor's list names.
spec fn entry_from(states: Seq<NotificationState>, ids: Seq<u64>, e: StackEntry) -> bool {
    exists|j: int|
        #![auto]
        0 <= j < states.len() && states[j].id == e.id && ids.contains(e.id) && spec_eligible(
            states[j],
        ) && e.created == states[j].created_at && e.width == states[j].full_rect.width && e.height
            == states[j].full_rect.height && e.pad == states[j].exterior_padding
}

/// The slot describes some eligible state whose identifier the anchor's list
/// names: same identifier and creation ordinal, and the anchor resolver's
/// placement of that state's size (the stacking walk chooses the row).
pub open spec fn spec_stacked_from(
    states: Seq<NotificationState>,
    ids: Seq<u64>,
    anchor: Anchor,
    frame: Rect,
    e: StackedNotification,
) -> bool {
    exists|j: int|
        #![auto]
        0 <= j < states.len() && states[j].id == e.id && ids.contains(e.id) && spec_eligible(
            states[j],
        ) && e.created_at == states[j].created_at && ({
            let base = spec_calculate_rect(
                anchor,
                spec_anchor_position(anchor, frame),
                states[j].full_rect.width as int,
                states[j].full_rect.height as int,
                frame,
                states[j].exterior_padding as int,
            );
            e.rect.x == base.x && e.rect.width == base.width && e.rect.height == base.height
        })
}

/// Compute the stacking layout for the notifications at one anchor.
///
/// The identifiers in `ids_at_anchor` are filtered to eligible states (not
/// `Pending`, not `Finished`), ordered newest first by creation, cut to
/// `max_concurrent` when one is set, and then placed: the newest at the
/// anchor's own position, each older one a cell of spacing further into the
/// frame (downward from top and middle anchors, upward from bottom ones),
/// stopping before any slot that would leave the frame. The result is
/// exactly `spec_stacking` of the inputs; the further clauses restate its
/// main consequences. Every returned slot lies within the frame.
#[verifier::rlimit(80)]
pub fn calculate_stacking_positions(
    states: &Vec<NotificationState>,
    anchor: Anchor,
    ids_at_anchor: &Vec<u64>,
    frame_area: Rect,
    max_concurrent: Option<usize>,
) -> (r: Vec<StackedNotification>)
    requires
        frame_area.wf(),
        frame_area.width >= 1,
        frame_area.height >= 1,
    ensures
        r@ == spec_stacking(states@, ids_at_anchor@, anchor, frame_area, max_concurrent),
        forall|m: int| 0 <= m < r@.len() ==> spec_stacked_from(
            states@,
            ids_at_anchor@,
            anchor,
            frame_area,
            #[trigger] r@[m],
        ),
        forall|m: int| 0 <= m < r@.len() ==> {
            let rc = (#[trigger] r@[m]).rect;
            &&& frame_area.x <= rc.x
            &&& rc.spec_right() <= frame_area.spec_right()
            &&& frame_area.y <= rc.y
            &&& rc.spec_bottom() <= frame_area.spec_bottom()
        },
        forall|m1: int, m2: int| 0 <= m1 <= m2 < r@.len() ==> (#[trigger] r@[m1]).created_at >= (
        #[trigger] r@[m2]).created_at,
        (max_concurrent is Some ==> r@.len() <= max_concurrent->0),
        forall|m: int| 0 <= m && m + 1 < r@.len() ==> if !anchor_is_bottom(anchor) {
            (#[trigger] r@[m + 1]).rect.y == r@[m].rect.y + r@[m].rect.height + 1
        } else {
            r@[m + 1].rect.y + r@[m + 1].rect.height + 1 == r@[m].rect.y
        },
{
    // Collect the stacking-relevant fields of the eligible states the list
    // names.
    let mut eligible: Vec<StackEntry> = Vec::new();
    let mut i: usize = 0;
    while i < ids_at_anchor.len()
        invariant
            i <= ids_at_anchor@.len(),
            eligible@ == spec_collect(states@, ids_at_anchor@.subrange(0, i as int)),
            forall|k: int| 0 <= k < eligible@.len() ==> entry_from(
                states@,
                ids_at_anchor@,
                #[trigger] eligible@[k],
            ),
        decreases ids_at_anchor@.len() - i,
    {
        let id = ids_at_anchor[i];
        let mut j: usize = 0;
        let mut found = false;
        while j < states.len() && !found
            invariant
                j <= states@.len(),
                id == ids_at_anchor@[i as int],
                i < ids_at_anchor@.len(),
                spec_find(states@, id) == if found {
                    Some(j as int)
                } else {
                    spec_find_from(states@, id, j as int)
                },
                found ==> j < states@.len() && states@[j as int].id == id,
            decreases states@.len() - j + (if found { 0int } else { 1int }),
        {
            if states[j].id == id {
                found = true;
            } else {
                j = j + 1;
            }
        }
        proof {
            assert(ids_at_anchor@.subrange(0, i + 1 as int).drop_last() =~= ids_at_anchor@.subrange(
                0,
                i as int,
            ));
            assert(ids_at_anchor@.subrange(0, i + 1 as int).last() == id);
        }
        if found {
            let ok = match states[j].current_phase {
                AnimationPhase::Pending | AnimationPhase::Finished => false,
                _ => true,
            };
            if ok {
                let e = StackEntry {
                    id,
                    created: states[j].created_at,
                    width: states[j].full_rect.width,
                    height: states[j].full_rect.height,
                    pad: states[j].exterior_padding,
                };
                proof {
                    assert(ids_at_anchor@.contains(id)) by {
                        assert(ids_at_anchor@[i as int] == id);
                    }
                    assert(e == spec_entry_of(states@[j as int]));
                    assert(entry_from(states@, ids_at_anchor@, e)) by {
                        let jj = j as int;
                        assert(0 <= jj < states@.len() && states@[jj].id == e.id
                            && ids_at_anchor@.contains(e.id) && spec_eligible(states@[jj])
                            && e.created == states@[jj].created_at && e.width
                            == states@[jj].full_rect.width && e.height
                            == states@[jj].full_rect.height && e.pad
                            == states@[jj].exterior_padding);
                    }
                }
                eligible.push(e);
            }
        }
        i = i + 1;
    }
    proof {
        assert(ids_at_anchor@.subrange(0, ids_at_anchor@.len() as int) =~= ids_at_anchor@);
    }

    // Order the entries newest first by repeatedly extracting the newest of
    // what remains (ties keep the earlier entry).
    let ghost collected = eligible@;
    let mut remaining = eligible;
    let mut sorted: Vec<StackEntry> = Vec::new();
    while remaining.len() > 0
        invariant
            spec_sort_desc(collected) == sorted@ + spec_sort_desc(remaining@),
            forall|k: int| 0 <= k < remaining@.len() ==> entry_from(
                states@,
                ids_at_anchor@,
                #[trigger] remaining@[k],
            ),
            forall|k: int| 0 <= k < sorted@.len() ==> entry_from(
                states@,
                ids_at_anchor@,
                #[trigger] sorted@[k],
            ),
            forall|k1: int, k2: int| 0 <= k1 <= k2 < sorted@.len() ==> (
            #[trigger] sorted@[k1]).created >= (#[trigger] sorted@[k2]).created,
            forall|k: int, m: int| 0 <= k < sorted@.len() && 0 <= m < remaining@.len() ==> (
            #[trigger] sorted@[k]).created >= (#[trigger] remaining@[m]).created,
        decreases remaining@.len(),
    {
        let mut best: usize = 0;
        let mut bi: usize = 1;
        while bi < remaining.len()
            invariant
                best < bi <= remaining@.len(),
                remaining@.len() > 0,
                spec_imax(remaining@) == spec_best_from(remaining@, bi as int, best as int),
                forall|k: int| 0 <= k < bi ==> (#[trigger] remaining@[k]).created
                    <= remaining@[best as int].created,
            decreases remaining@.len() - bi,
        {
            if remaining[bi].created > remaining[best].created {
                best = bi;
            }
            bi = bi + 1;
        }
        proof {
            assert(spec_imax(remaining@) == best as int);
        }
        let ghost before = remaining@;
        let ghost old_sorted = sorted@;
        let e = remaining.remove(best);
        sorted.push(e);
        proof {
            assert(spec_sort_desc(before) == seq![e] + spec_sort_desc(before.remove(best as int)));
            assert(remaining@ =~= before.remove(best as int));
            // Every element of what remains was an element of `before`, so
            // its facts carry over; the extracted entry is the newest left.
            assert forall|m: int| 0 <= m < remaining@.len() implies #[trigger] remaining@[m]
                == (if m < best as int {
                before[m]
            } else {
                before[m + 1]
            }) by {}
            assert forall|m: int| 0 <= m < remaining@.len() implies e.created >= (
            #[trigger] remaining@[m]).created by {
                if m < best as int {
                    assert(before[m].created <= before[best as int].created);
                } else {
                    assert(before[m + 1].created <= before[best as int].created);
                }
            }
            assert(sorted@ =~= old_sorted.push(e));
            assert(old_sorted + spec_sort_desc(before) =~= sorted@ + spec_sort_desc(remaining@));
            assert forall|k: int| 0 <= k < sorted@.len() implies entry_from(
                states@,
                ids_at_anchor@,
                #[trigger] sorted@[k],
            ) by {
                if k < old_sorted.len() {
                    assert(sorted@[k] == old_sorted[k]);
                } else {
                    assert(sorted@[k] == e);
                    assert(entry_from(states@, ids_at_anchor@, before[best as int]));
                }
            }
            assert forall|k1: int, k2: int|
                0 <= k1 <= k2 < sorted@.len() implies (#[trigger] sorted@[k1]).created >= (
            #[trigger] sorted@[k2]).created by {
                if k2 < old_sorted.len() {
                    assert(sorted@[k1] == old_sorted[k1]);
                    assert(sorted@[k2] == old_sorted[k2]);
                } else {
                    assert(sorted@[k2] == e);
                    if k1 < old_sorted.len() {
                        assert(sorted@[k1] == old_sorted[k1]);
                        assert(old_sorted[k1].created >= before[best as int].created);
                    }
                }
            }
            assert forall|k: int, m: int|
                0 <= k < sorted@.len() && 0 <= m < remaining@.len() implies (
            #[trigger] sorted@[k]).created >= (#[trigger] remaining@[m]).created by {
                if k < old_sorted.len() {
                    assert(sorted@[k] == old_sorted[k]);
                    if m < best as int {
                        assert(remaining@[m] == before[m]);
                    } else {
                        assert(remaining@[m] == before[m + 1]);
                    }
                } else {
                    assert(sorted@[k] == e);
                    assert(e.created >= remaining@[m].created);
                }
            }
        }
    }
    proof {
        assert(spec_sort_desc(remaining@) =~= Seq::<StackEntry>::empty());
        assert(sorted@ =~= spec_sort_desc(collected));
    }

    // Cut to the concurrency limit, keeping the newest.
    let ghost sorted_full = sorted@;
    if let Some(k) = max_concurrent {
        if sorted.len() > k {
            sorted.truncate(k);
        }
    }
    proof {
        assert(sorted@ == spec_cut(sorted_full, max_concurrent));
    }

    // Place the slots, walking away from the anchor, one cell of spacing
    // between consecutive slots, stopping before any slot that would leave
    // the frame.
    let ghost cut = sorted@;
    let anchor_pos = calculate_anchor_position(anchor, frame_area);
    let stack_down = match anchor {
        Anchor::BottomLeft | Anchor::BottomCenter | Anchor::BottomRight => false,
        _ => true,
    };
    let mut out: Vec<StackedNotification> = Vec::new();
    let mut k: usize = 0;
    while k < sorted.len()
        invariant_except_break
            k <= sorted@.len(),
            out@.len() == k,
            cut == sorted@,
            stack_down == !anchor_is_bottom(anchor),
            anchor_pos == spec_anchor_position(anchor, frame_area),
            frame_area.wf(),
            frame_area.width >= 1,
            frame_area.height >= 1,
            spec_place_from(cut, 0, None, anchor, frame_area) == out@ + spec_place_from(
                cut,
                k as int,
                if k == 0 {
                    None
                } else {
                    Some(out@.last())
                },
                anchor,
                frame_area,
            ),
            forall|kk: int| 0 <= kk < sorted@.len() ==> entry_from(
                states@,
                ids_at_anchor@,
                #[trigger] sorted@[kk],
            ),
            forall|k1: int, k2: int| 0 <= k1 <= k2 < sorted@.len() ==> (
            #[trigger] sorted@[k1]).created >= (#[trigger] sorted@[k2]).created,
            forall|m: int| 0 <= m < out@.len() ==> (#[trigger] out@[m]).created_at
                == sorted@[m].created,
            forall|m: int| 0 <= m < out@.len() ==> spec_stacked_from(
                states@,
                ids_at_anchor@,
                anchor,
                frame_area,
                #[trigger] out@[m],
            ),
            forall|m: int| 0 <= m < out@.len() ==> {
                let rc = (#[trigger] out@[m]).rect;
                &&& frame_area.x <= rc.x
                &&& rc.spec_right() <= frame_area.spec_right()
                &&& frame_area.y <= rc.y
                &&& rc.spec_bottom() <= frame_area.spec_bottom()
            },
            forall|m: int| 0 <= m && m + 1 < out@.len() ==> if stack_down {
                (#[trigger] out@[m + 1]).rect.y == out@[m].rect.y + out@[m].rect.height + 1
            } else {
                out@[m + 1].rect.y + out@[m + 1].rect.height + 1 == out@[m].rect.y
            },
        ensures
            out@.len() <= sorted@.len(),
            cut == sorted@,
            out@ == spec_place_from(cut, 0, None, anchor, frame_area),
            forall|m: int| 0 <= m < out@.len() ==> (#[trigger] out@[m]).created_at
                == sorted@[m].created,
            forall|m: int| 0 <= m < out@.len() ==> spec_stacked_from(
                states@,
                ids_at_anchor@,
                anchor,
                frame_area,
                #[trigger] out@[m],
            ),
            forall|m: int| 0 <= m < out@.len() ==> {
                let rc = (#[trigger] out@[m]).rect;
                &&& frame_area.x <= rc.x
                &&& rc.spec_right() <= frame_area.spec_right()
                &&& frame_area.y <= rc.y
                &&& rc.spec_bottom() <= frame_area.spec_bottom()
            },
            forall|m1: int, m2: int| 0 <= m1 <= m2 < out@.len() ==> (#[trigger] out@[m1]).created_at
                >= (#[trigger] out@[m2]).created_at,
            forall|m: int| 0 <= m && m + 1 < out@.len() ==> if stack_down {
                (#[trigger] out@[m + 1]).rect.y == out@[m].rect.y + out@[m].rect.height + 1
            } else {
                out@[m + 1].rect.y + out@[m + 1].rect.height + 1 == out@[m].rect.y
            },
        decreases sorted@.len() - k,
    {
        let e = sorted[k];
        let base = calculate_rect(anchor, anchor_pos, e.width, e.height, frame_area, e.pad);
        let rect: Rect;
        if k == 0 {
            rect = base;
        } else {
            let prev = out[k - 1].rect;
            if stack_down {
                let y: u32 = prev.y as u32 + prev.height as u32 + 1;
                if y + base.height as u32 <= frame_area.y as u32 + frame_area.height as u32 {
                    rect = Rect { x: base.x, y: y as u16, width: base.width, height: base.height };
                } else {
                    proof {
                        assert(spec_place_from(
                            cut,
                            k as int,
                            Some(out@.last()),
                            anchor,
                            frame_area,
                        ) =~= Seq::<StackedNotification>::empty());
                    }
                    break ;
                }
            } else {
                let top: i64 = prev.y as i64 - 1 - base.height as i64;
                if top >= frame_area.y as i64 {
                    rect = Rect {
                        x: base.x,
                        y: top as u16,
                        width: base.width,
                        height: base.height,
                    };
                } else {
                    proof {
                        assert(spec_place_from(
                            cut,
                            k as int,
                            Some(out@.last()),
                            anchor,
                            frame_area,
                        ) =~= Seq::<StackedNotification>::empty());
                    }
                    break ;
                }
            }
        }
        let slot = StackedNotification { id: e.id, rect, created_at: e.created };
        proof {
            let kprev: Option<StackedNotification> = if k == 0 {
                None
            } else {
                Some(out@.last())
            };
            assert(spec_place_from(cut, k as int, kprev, anchor, frame_area) == seq![slot]
                + spec_place_from(cut, k + 1 as int, Some(slot), anchor, frame_area));
            assert(out@ + spec_place_from(cut, k as int, kprev, anchor, frame_area)
                =~= out@.push(slot) + spec_place_from(
                cut,
                k + 1 as int,
                Some(slot),
                anchor,
                frame_area,
            ));
            assert(entry_from(states@, ids_at_anchor@, e));
            let j = choose|j: int|
                #![auto]
                0 <= j < states@.len() && states@[j].id == e.id && ids_at_anchor@.contains(e.id)
                    && spec_eligible(states@[j]) && e.created == states@[j].created_at && e.width
                    == states@[j].full_rect.width && e.height == states@[j].full_rect.height
                    && e.pad == states@[j].exterior_padding;
            assert(spec_stacked_from(states@, ids_at_anchor@, anchor, frame_area, slot)) by {
                assert(0 <= j < states@.len() && states@[j].id == slot.id
                    && ids_at_anchor@.contains(slot.id) && spec_eligible(states@[j])
                    && slot.created_at == states@[j].created_at && ({
                    let b = spec_calculate_rect(
                        anchor,
                        spec_anchor_position(anchor, frame_area),
                        states@[j].full_rect.width as int,
                        states@[j].full_rect.height as int,
                        frame_area,
                        states@[j].exterior_padding as int,
                    );
                    slot.rect.x == b.x && slot.rect.width == b.width && slot.rect.height == b.height
                }));
            }
        }
        let ghost before_out = out@;
        out.push(slot);
        proof {
            assert forall|m: int| 0 <= m && m + 1 < out@.len() implies (if stack_down {
                (#[trigger] out@[m + 1]).rect.y == out@[m].rect.y + out@[m].rect.height + 1
            } else {
                out@[m + 1].rect.y + out@[m + 1].rect.height + 1 == out@[m].rect.y
            }) by {
                if m + 1 < before_out.len() {
                    assert(out@[m + 1] == before_out[m + 1]);
                    assert(out@[m] == before_out[m]);
                } else {
                    assert(out@[m + 1] == slot);
                    if m >= 0 {
                        assert(out@[m] == before_out[m]);
                    }
                }
            }
        }
        k = k + 1;
    }
    proof {
        assert(out@ == spec_stacking(states@, ids_at_anchor@, anchor, frame_area, max_concurrent));
    }
    out
}

} // verus!
