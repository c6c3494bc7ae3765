//! The render planner: the per-frame pipeline that recomputes each
//! notification's target rectangle against the current frame, stacks the
//! notifications of each anchor, and hands every visible notification's
//! draw instructions — rectangle, styles, colors and border glyphs — to the
//! embedding application, which owns the actual glyph output.

use vstd::prelude::*;

verus! {

use crate::anchor::{calculate_anchor_position, calculate_rect, resolve_slide_direction,
    spec_anchor_position, spec_calculate_rect, spec_resolved_direction};
use crate::color::Color;
use crate::expand;
use crate::expand::spec_expand_calculate_rect;
use crate::fade::{FadeHandler, spec_fade_frame_foreground, spec_fade_content_foreground};
use crate::geometry::{Rect, clip_to_frame, spec_clip};
use crate::manager::Notifications;
use crate::size::{calculate_size, spec_calc_height, spec_calc_width};
use crate::slide::{BorderSet, slide_apply_border_effect, slide_calculate_rect};
use crate::slide::{spec_slide_apply_border_effect, spec_slide_calculate_rect};
use crate::stacking::{StackedNotification, calculate_stacking_positions, spec_eligible, spec_find,
    spec_find_from, spec_stacking};
use crate::state::NotificationState;
use crate::styles::{Style, resolve_styles, spec_border_style, spec_title_style};
use crate::types::{Anchor, Animation, AnimationPhase, BorderType};

/// Everything the embedding application needs to draw one notification for
/// one frame.
#[derive(Debug, Clone, Copy, PartialEq, Eq, Structural)]
pub struct RenderItem {
    /// Which notification this is; its title and content are read from the
    /// manager under this identifier.
    pub id: u64,
    /// The cells to draw into, already clipped to the frame.
    pub rect: Rect,
    /// The style of the box interior.
    pub block_style: Style,
    /// The style of the border.
    pub border_style: Style,
    /// The style of the title.
    pub title_style: Style,
    /// The border foreground for this frame, after any fade.
    pub frame_fg: Option<Color>,
    /// The content foreground for this frame; `None` leaves the content's
    /// own color untouched.
    pub content_fg: Option<Color>,
    /// The border glyphs, after any slide cut effect; `None` for no border.
    pub border_set: Option<BorderSet>,
}

/// The frame (border) foreground color of a notification: faded for the
/// fade animation and for slides with the cross-fade flag, the base color
/// otherwise.
pub open spec fn spec_frame_fg(
    animation: Animation,
    fade_effect: bool,
    base: Option<Color>,
    phase: AnimationPhase,
    progress: int,
) -> Option<Color> {
    match animation {
        Animation::Fade => spec_fade_frame_foreground(base, phase, progress),
        Animation::Slide => if fade_effect {
            spec_fade_frame_foreground(base, phase, progress)
        } else {
            base
        },
        Animation::ExpandCollapse => base,
    }
}

/// The content foreground override of a notification: achromatic fading for
/// the fade animation and for slides with the cross-fade flag, none
/// otherwise.
pub open spec fn spec_content_fg(
    animation: Animation,
    fade_effect: bool,
    phase: AnimationPhase,
    progress: int,
) -> Option<Color> {
    match animation {
        Animation::Fade => spec_fade_content_foreground(phase, progress),
        Animation::Slide => if fade_effect {
            spec_fade_content_foreground(phase, progress)
        } else {
            None
        },
        Animation::ExpandCollapse => None,
    }
}

/// The base border glyphs of a border type.
pub fn border_set_of(border_type: BorderType) -> (s: BorderSet)
    ensures
        s == spec_border_set_of(border_type),
{
    match border_type {
        BorderType::Plain => BorderSet::plain(),
        BorderType::Rounded => BorderSet::rounded(),
        BorderType::Double => BorderSet::double(),
        BorderType::Thick => BorderSet::thick(),
    }
}

/// The base border glyphs of a border type.
pub open spec fn spec_border_set_of(border_type: BorderType) -> BorderSet {
    match border_type {
        BorderType::Plain => BorderSet::spec_plain(),
        BorderType::Rounded => BorderSet::spec_rounded(),
        BorderType::Double => BorderSet::spec_double(),
        BorderType::Thick => BorderSet::spec_thick(),
    }
}

/// The target rectangle a state assumes against a frame: its size computed
/// from content and constraints, placed at its anchor.
pub open spec fn spec_full_rect_for(s: NotificationState, frame: Rect) -> Rect {
    spec_calculate_rect(
        s.notification.anchor,
        spec_anchor_position(s.notification.anchor, frame),
        spec_calc_width(s.notification, frame),
        spec_calc_height(s.notification, frame),
        frame,
        s.exterior_padding as int,
    )
}

/// The draw instructions carry the styles and this frame's colors of the
/// eligible state they were computed from.
pub open spec fn spec_item_from(
    states: Seq<NotificationState>,
    frame: Rect,
    it: RenderItem,
) -> bool {
    exists|j: int|
        #![auto]
        0 <= j < states.len() && states[j].id == it.id && spec_eligible(states[j]) && ({
            let n = states[j].notification;
            let border = spec_border_style(n.level, n.border_style);
            &&& it.block_style == (match n.block_style {
                Some(b) => b,
                None => Style { fg: None, bg: None },
            })
            &&& it.border_style == border
            &&& it.title_style == spec_title_style(n.level, n.border_style, n.title_style)
            &&& it.frame_fg == spec_frame_fg(
                n.animation,
                n.fade_effect,
                border.fg,
                states[j].current_phase,
                states[j].animation_progress as int,
            )
            &&& it.content_fg == spec_content_fg(
                n.animation,
                n.fade_effect,
                states[j].current_phase,
                states[j].animation_progress as int,
            )
            &&& ((it.border_set is Some) <==> (n.border_type is Some))
        })
}

/// The identifiers of the states anchored at `anchor`, in storage order.
pub open spec fn spec_ids_at(states: Seq<NotificationState>, anchor: Anchor) -> Seq<u64>
    decreases states.len(),
{
    if states.len() == 0 {
        Seq::empty()
    } else {
        let pre = spec_ids_at(states.drop_last(), anchor);
        if states.last().notification.anchor == anchor {
            pre.push(states.last().id)
        } else {
            pre
        }
    }
}

/// The order the planner visits the nine anchors in.
pub open spec fn spec_anchor_order() -> Seq<Anchor> {
    seq![
        Anchor::TopLeft,
        Anchor::TopCenter,
        Anchor::TopRight,
        Anchor::MiddleLeft,
        Anchor::MiddleCenter,
        Anchor::MiddleRight,
        Anchor::BottomLeft,
        Anchor::BottomCenter,
        Anchor::BottomRight,
    ]
}

/// The draw instructions of one stacked slot, computed from its owning
/// state: the animation handler's rectangle (moved and clipped for slides,
/// center-scaled for expand/collapse, the slot itself for fades), clipped to
/// the frame; the resolved styles; this frame's fade colors; and the border
/// glyphs after any slide cut effect.
pub open spec fn spec_item_of(
    st: NotificationState,
    slot: StackedNotification,
    frame: Rect,
) -> RenderItem {
    let n = st.notification;
    let direction = spec_resolved_direction(n.slide_direction, n.anchor);
    let anim_rect = match n.animation {
        Animation::Slide => spec_slide_calculate_rect(
            slot.rect,
            frame,
            st.animation_progress as int,
            st.current_phase,
            direction,
            st.custom_entry_position,
            st.custom_exit_position,
        ),
        Animation::ExpandCollapse => spec_expand_calculate_rect(
            slot.rect,
            st.current_phase,
            st.animation_progress as int,
        ),
        Animation::Fade => slot.rect,
    };
    let border = spec_border_style(n.level, n.border_style);
    RenderItem {
        id: slot.id,
        rect: spec_clip(
            anim_rect.x as int,
            anim_rect.y as int,
            anim_rect.width as int,
            anim_rect.height as int,
            frame,
        ),
        block_style: match n.block_style {
            Some(b) => b,
            None => Style { fg: None, bg: None },
        },
        border_style: border,
        title_style: spec_title_style(n.level, n.border_style, n.title_style),
        frame_fg: spec_frame_fg(
            n.animation,
            n.fade_effect,
            border.fg,
            st.current_phase,
            st.animation_progress as int,
        ),
        content_fg: spec_content_fg(
            n.animation,
            n.fade_effect,
            st.current_phase,
            st.animation_progress as int,
        ),
        border_set: match n.border_type {
            None => None,
            Some(bt) => {
                let base = spec_border_set_of(bt);
                match n.animation {
                    Animation::Slide => Some(
                        spec_slide_apply_border_effect(
                            base,
                            direction,
                            st.animation_progress as int,
                            st.current_phase,
                            slot.rect,
                            st.custom_entry_position,
                            st.custom_exit_position,
                            frame,
                        ),
                    ),
                    _ => Some(base),
                }
            },
        },
    }
}

/// The draw instructions of a run of stacked slots, in order; a slot whose
/// identifier matches no state contributes nothing.
pub open spec fn spec_items_for_slots(
    states: Seq<NotificationState>,
    slots: Seq<StackedNotification>,
    frame: Rect,
) -> Seq<RenderItem>
    decreases slots.len(),
{
    if slots.len() == 0 {
        Seq::empty()
    } else {
        let pre = spec_items_for_slots(states, slots.drop_last(), frame);
        match spec_find(states, slots.last().id) {
            Some(j) => pre.push(spec_item_of(states[j], slots.last(), frame)),
            None => pre,
        }
    }
}

/// One anchor's draw instructions: its stacking layout turned into items.
pub open spec fn spec_items_for_anchor(
    states: Seq<NotificationState>,
    anchor: Anchor,
    frame: Rect,
    max_concurrent: Option<usize>,
) -> Seq<RenderItem> {
    spec_items_for_slots(
        states,
        spec_stacking(states, spec_ids_at(states, anchor), anchor, frame, max_concurrent),
        frame,
    )
}

/// The draw instructions of the first `n` anchors of the planner's order,
/// concatenated.
pub open spec fn spec_render_items(
    states: Seq<NotificationState>,
    frame: Rect,
    max_concurrent: Option<usize>,
    n: int,
) -> Seq<RenderItem>
    decreases n,
{
    if n <= 0 {
        Seq::empty()
    } else {
        spec_render_items(states, frame, max_concurrent, n - 1) + spec_items_for_anchor(
            states,
            spec_anchor_order()[n - 1],
            frame,
            max_concurrent,
        )
    }
}

impl Notifications {
    /// Compute this frame's draw instructions.
    ///
    /// Each state's target rectangle is first recomputed against the frame
    /// (percentage constraints are frame-relative); the notifications of
    /// each anchor are stacked; and each stacked slot is turned into draw
    /// instructions by its animation handler: the slide handler moves and
    /// clips the box and cuts its border glyphs, the expand handler grows or
    /// shrinks it around its center, the fade handler blends the colors.
    /// The returned items are exactly `spec_render_items`: one item per
    /// stacked slot of each anchor, visited in the planner's fixed anchor
    /// order. Every returned rectangle lies within the frame; nothing but
    /// the target rectangles changes in the manager.
    pub fn render_plan(&mut self, frame_area: Rect) -> (items: Vec<RenderItem>)
        requires
            old(self).wf(),
            frame_area.wf(),
            frame_area.width >= 1,
            frame_area.height >= 1,
        ensures
            final(self).wf(),
            final(self).next_id == old(self).next_id,
            final(self).max_concurrent == old(self).max_concurrent,
            final(self).overflow == old(self).overflow,
            final(self).defaults == old(self).defaults,
            final(self).states@.len() == old(self).states@.len(),
            forall|k: int| 0 <= k < old(self).states@.len() ==> final(self).states@[k] == (
            NotificationState {
                full_rect: spec_full_rect_for(#[trigger] old(self).states@[k], frame_area),
                ..old(self).states@[k]
            }),
            items@ == spec_render_items(
                final(self).states@,
                frame_area,
                old(self).max_concurrent,
                9,
            ),
            forall|m: int| 0 <= m < items@.len() ==> spec_item_from(
                final(self).states@,
                frame_area,
                #[trigger] items@[m],
            ),
            forall|m: int| 0 <= m < items@.len() ==> {
                let rc = (#[trigger] items@[m]).rect;
                &&& frame_area.x <= rc.x || (rc.x == 0 && rc.width == 0)
                &&& rc.spec_right() <= frame_area.spec_right() || rc.width == 0
                &&& frame_area.y <= rc.y || (rc.y == 0 && rc.height == 0)
                &&& rc.spec_bottom() <= frame_area.spec_bottom() || rc.height == 0
            },
    {
        let ghost orig = self.states@;
        // Recompute every state's target rectangle against this frame.
        let n = self.states.len();
        let mut i: usize = 0;
        while i < n
            invariant
                n == self.states@.len(),
                i <= n,
                orig.len() == n,
                frame_area.wf(),
                frame_area.width >= 1,
                frame_area.height >= 1,
                forall|k: int| 0 <= k < orig.len() ==> (#[trigger] orig[k]).wf(),
                forall|k: int| 0 <= k < i ==> self.states@[k] == (NotificationState {
                    full_rect: spec_full_rect_for(#[trigger] orig[k], frame_area),
                    ..orig[k]
                }),
                forall|k: int| i <= k < n ==> self.states@[k] == orig[k],
                self.next_id == old(self).next_id,
                self.max_concurrent == old(self).max_concurrent,
                self.overflow == old(self).overflow,
                self.defaults == old(self).defaults,
            decreases n - i,
        {
            proof {
                assert(self.states@[i as int] == orig[i as int]);
                assert(orig[i as int].wf());
            }
            let anchor = self.states[i].notification.anchor;
            let pad = self.states[i].exterior_padding;
            let (w, h) = calculate_size(&self.states[i].notification, frame_area);
            let pos = calculate_anchor_position(anchor, frame_area);
            let rect = calculate_rect(anchor, pos, w, h, frame_area, pad);
            let st = &mut self.states[i];
            st.full_rect = rect;
            i = i + 1;
        }
        let ghost placed = self.states@;
        proof {
            assert forall|k: int| 0 <= k < placed.len() implies (#[trigger] placed[k]).wf() by {
                assert(placed[k] == (NotificationState {
                    full_rect: spec_full_rect_for(orig[k], frame_area),
                    ..orig[k]
                }));
            }
            assert forall|k: int|
                0 <= k < placed.len() implies (#[trigger] placed[k]).id < self.next_id
                && placed[k].created_at == placed[k].id by {
                assert(placed[k] == (NotificationState {
                    full_rect: spec_full_rect_for(orig[k], frame_area),
                    ..orig[k]
                }));
            }
            assert forall|a: int, b: int|
                0 <= a < b < placed.len() implies (#[trigger] placed[a]).id < (
            #[trigger] placed[b]).id by {
                assert(placed[a] == (NotificationState {
                    full_rect: spec_full_rect_for(orig[a], frame_area),
                    ..orig[a]
                }));
                assert(placed[b] == (NotificationState {
                    full_rect: spec_full_rect_for(orig[b], frame_area),
                    ..orig[b]
                }));
            }
        }

        // Stack each anchor's notifications and turn every slot into draw
        // instructions.
        let mut anchors: Vec<Anchor> = Vec::new();
        anchors.push(Anchor::TopLeft);
        anchors.push(Anchor::TopCenter);
        anchors.push(Anchor::TopRight);
        anchors.push(Anchor::MiddleLeft);
        anchors.push(Anchor::MiddleCenter);
        anchors.push(Anchor::MiddleRight);
        anchors.push(Anchor::BottomLeft);
        anchors.push(Anchor::BottomCenter);
        anchors.push(Anchor::BottomRight);
        proof {
            assert(anchors@ =~= spec_anchor_order());
        }
        let mut items: Vec<RenderItem> = Vec::new();
        let mut a: usize = 0;
        while a < anchors.len()
            invariant
                a <= anchors@.len(),
                anchors@ == spec_anchor_order(),
                items@ == spec_render_items(
                    placed,
                    frame_area,
                    old(self).max_concurrent,
                    a as int,
                ),
                placed == self.states@,
                self.wf(),
                frame_area.wf(),
                frame_area.width >= 1,
                frame_area.height >= 1,
                forall|k: int| 0 <= k < placed.len() ==> (#[trigger] placed[k]).wf(),
                forall|k1: int, k2: int| 0 <= k1 < k2 < placed.len() ==> (
                #[trigger] placed[k1]).id < (#[trigger] placed[k2]).id,
                forall|m: int| 0 <= m < items@.len() ==> spec_item_from(
                    placed,
                    frame_area,
                    #[trigger] items@[m],
                ),
                forall|m: int| 0 <= m < items@.len() ==> {
                    let rc = (#[trigger] items@[m]).rect;
                    &&& frame_area.x <= rc.x || (rc.x == 0 && rc.width == 0)
                    &&& rc.spec_right() <= frame_area.spec_right() || rc.width == 0
                    &&& frame_area.y <= rc.y || (rc.y == 0 && rc.height == 0)
                    &&& rc.spec_bottom() <= frame_area.spec_bottom() || rc.height == 0
                },
                self.next_id == old(self).next_id,
                self.max_concurrent == old(self).max_concurrent,
                self.overflow == old(self).overflow,
                self.defaults == old(self).defaults,
            decreases anchors@.len() - a,
        {
            let anchor = anchors[a];
            let mut ids: Vec<u64> = Vec::new();
            let mut k: usize = 0;
            while k < self.states.len()
                invariant
                    k <= self.states@.len(),
                    placed == self.states@,
                    ids@ == spec_ids_at(placed.subrange(0, k as int), anchor),
                decreases self.states@.len() - k,
            {
                proof {
                    assert(placed.subrange(0, k + 1 as int).drop_last() =~= placed.subrange(
                        0,
                        k as int,
                    ));
                    assert(placed.subrange(0, k + 1 as int).last() == placed[k as int]);
                }
                if self.states[k].notification.anchor == anchor {
                    ids.push(self.states[k].id);
                }
                k = k + 1;
            }
            proof {
                assert(placed.subrange(0, placed.len() as int) =~= placed);
                assert(ids@ == spec_ids_at(placed, anchor));
            }
            let slots = calculate_stacking_positions(
                &self.states,
                anchor,
                &ids,
                frame_area,
                self.max_concurrent,
            );
            let ghost base_items = items@;
            let mut m: usize = 0;
            while m < slots.len()
                invariant
                    m <= slots@.len(),
                    placed == self.states@,
                    ids@ == spec_ids_at(placed, anchor),
                    slots@ == spec_stacking(
                        placed,
                        ids@,
                        anchor,
                        frame_area,
                        old(self).max_concurrent,
                    ),
                    items@ == base_items + spec_items_for_slots(
                        placed,
                        slots@.subrange(0, m as int),
                        frame_area,
                    ),
                    frame_area.wf(),
                    frame_area.width >= 1,
                    frame_area.height >= 1,
                    forall|k2: int| 0 <= k2 < placed.len() ==> (#[trigger] placed[k2]).wf(),
                    forall|k1: int, k2: int| 0 <= k1 < k2 < placed.len() ==> (
                    #[trigger] placed[k1]).id < (#[trigger] placed[k2]).id,
                    forall|mm: int| 0 <= mm < slots@.len() ==> crate::stacking::spec_stacked_from(
                        placed,
                        ids@,
                        anchor,
                        frame_area,
                        #[trigger] slots@[mm],
                    ),
                    forall|mm: int| 0 <= mm < slots@.len() ==> {
                        let rc = (#[trigger] slots@[mm]).rect;
                        &&& frame_area.x <= rc.x
                        &&& rc.spec_right() <= frame_area.spec_right()
                        &&& frame_area.y <= rc.y
                        &&& rc.spec_bottom() <= frame_area.spec_bottom()
                    },
                    forall|mm: int| 0 <= mm < items@.len() ==> spec_item_from(
                        placed,
                        frame_area,
                        #[trigger] items@[mm],
                    ),
                    forall|mm: int| 0 <= mm < items@.len() ==> {
                        let rc = (#[trigger] items@[mm]).rect;
                        &&& frame_area.x <= rc.x || (rc.x == 0 && rc.width == 0)
                        &&& rc.spec_right() <= frame_area.spec_right() || rc.width == 0
                        &&& frame_area.y <= rc.y || (rc.y == 0 && rc.height == 0)
                        &&& rc.spec_bottom() <= frame_area.spec_bottom() || rc.height == 0
                    },
                decreases slots@.len() - m,
            {
                let slot = slots[m];
                proof {
                    assert(slots@.subrange(0, m + 1 as int).drop_last() =~= slots@.subrange(
                        0,
                        m as int,
                    ));
                    assert(slots@.subrange(0, m + 1 as int).last() == slots@[m as int]);
                }
                // Find the slot's state; its identifier names exactly one.
                let mut j: usize = 0;
                let mut found: bool = false;
                while j < self.states.len() && !found
                    invariant
                        j <= placed.len(),
                        placed == self.states@,
                        spec_find(placed, slot.id) == if found {
                            Some(j as int)
                        } else {
                            spec_find_from(placed, slot.id, j as int)
                        },
                        !found ==> forall|q: int| 0 <= q < j ==> (#[trigger] placed[q]).id
                            != slot.id,
                        found ==> j < placed.len() && placed[j as int].id == slot.id,
                    decreases placed.len() - j + (if found { 0int } else { 1int }),
                {
                    if self.states[j].id == slot.id {
                        found = true;
                    } else {
                        j = j + 1;
                    }
                }
                if found {
                    proof {
                        let w = choose|w: int|
                            #![auto]
                            0 <= w < placed.len() && placed[w].id == slot.id && ids@.contains(
                                slot.id,
                            ) && spec_eligible(placed[w]);
                        if w != j as int {
                            if w < j as int {
                                assert(placed[w].id < placed[j as int].id);
                            } else {
                                assert(placed[j as int].id < placed[w].id);
                            }
                        }
                        assert(spec_eligible(placed[j as int]));
                        assert(placed[j as int].wf());
                    }
                    let st = &self.states[j];
                    let progress = st.animation_progress;
                    let phase = st.current_phase;
                    let direction = resolve_slide_direction(
                        st.notification.slide_direction,
                        st.notification.anchor,
                    );
                    let anim_rect: Rect = match st.notification.animation {
                        Animation::Slide => slide_calculate_rect(
                            slot.rect,
                            frame_area,
                            progress,
                            phase,
                            st.notification.anchor,
                            direction,
                            st.custom_entry_position,
                            st.custom_exit_position,
                        ),
                        Animation::ExpandCollapse => expand::calculate_rect(
                            slot.rect,
                            frame_area,
                            phase,
                            progress,
                        ),
                        Animation::Fade => crate::fade::calculate_rect(
                            slot.rect,
                            frame_area,
                            phase,
                            progress,
                        ),
                    };
                    let rect = clip_to_frame(
                        anim_rect.x as i32,
                        anim_rect.y as i32,
                        anim_rect.width,
                        anim_rect.height,
                        frame_area,
                    );
                    let (block_style, border_style, title_style) = resolve_styles(
                        st.notification.level,
                        st.notification.block_style,
                        st.notification.border_style,
                        st.notification.title_style,
                    );
                    let fade_effect = st.notification.fade_effect;
                    let handler = FadeHandler;
                    let frame_fg: Option<Color> = match st.notification.animation {
                        Animation::Fade => handler.interpolate_frame_foreground(
                            border_style.fg,
                            phase,
                            progress,
                        ),
                        Animation::Slide => if fade_effect {
                            handler.interpolate_frame_foreground(border_style.fg, phase, progress)
                        } else {
                            border_style.fg
                        },
                        Animation::ExpandCollapse => border_style.fg,
                    };
                    let content_fg: Option<Color> = match st.notification.animation {
                        Animation::Fade => handler.interpolate_content_foreground(
                            None,
                            phase,
                            progress,
                        ),
                        Animation::Slide => if fade_effect {
                            handler.interpolate_content_foreground(None, phase, progress)
                        } else {
                            None
                        },
                        Animation::ExpandCollapse => None,
                    };
                    let border_set: Option<BorderSet> = match st.notification.border_type {
                        None => None,
                        Some(bt) => {
                            let base = border_set_of(bt);
                            match st.notification.animation {
                                Animation::Slide => Some(
                                    slide_apply_border_effect(
                                        base,
                                        st.notification.anchor,
                                        direction,
                                        progress,
                                        phase,
                                        slot.rect,
                                        st.custom_entry_position,
                                        st.custom_exit_position,
                                        frame_area,
                                    ),
                                ),
                                _ => Some(base),
                            }
                        },
                    };
                    let item = RenderItem {
                        id: slot.id,
                        rect,
                        block_style,
                        border_style,
                        title_style,
                        frame_fg,
                        content_fg,
                        border_set,
                    };
                    proof {
                        let jj = j as int;
                        assert(spec_find(placed, slot.id) == Some(jj));
                        assert(item == spec_item_of(placed[jj], slot, frame_area));
                        assert(items@.push(item) =~= base_items + spec_items_for_slots(
                            placed,
                            slots@.subrange(0, m + 1 as int),
                            frame_area,
                        ));
                        assert(spec_item_from(placed, frame_area, item)) by {
                            assert(0 <= jj < placed.len() && placed[jj].id == item.id
                                && spec_eligible(placed[jj]) && ({
                                let nn = placed[jj].notification;
                                let border = spec_border_style(nn.level, nn.border_style);
                                &&& item.block_style == (match nn.block_style {
                                    Some(b) => b,
                                    None => Style { fg: None, bg: None },
                                })
                                &&& item.border_style == border
                                &&& item.title_style == spec_title_style(
                                    nn.level,
                                    nn.border_style,
                                    nn.title_style,
                                )
                                &&& item.frame_fg == spec_frame_fg(
                                    nn.animation,
                                    nn.fade_effect,
                                    border.fg,
                                    placed[jj].current_phase,
                                    placed[jj].animation_progress as int,
                                )
                                &&& item.content_fg == spec_content_fg(
                                    nn.animation,
                                    nn.fade_effect,
                                    placed[jj].current_phase,
                                    placed[jj].animation_progress as int,
                                )
                                &&& ((item.border_set is Some) <==> (nn.border_type is Some))
                            }));
                        }
                    }
                    items.push(item);
                } else {
                    proof {
                        assert(spec_find(placed, slot.id) is None);
                        assert(items@ =~= base_items + spec_items_for_slots(
                            placed,
                            slots@.subrange(0, m + 1 as int),
                            frame_area,
                        ));
                    }
                }
                m = m + 1;
            }
            proof {
                assert(slots@.subrange(0, slots@.len() as int) =~= slots@);
                assert(items@ == base_items + spec_items_for_anchor(
                    placed,
                    anchor,
                    frame_area,
                    old(self).max_concurrent,
                ));
                assert(anchor == spec_anchor_order()[a as int]);
                assert(items@ == spec_render_items(
                    placed,
                    frame_area,
                    old(self).max_concurrent,
                    a + 1,
                ));
            }
            a = a + 1;
        }
        items
    }
}

} // verus!
