//! The per-notification lifecycle state machine: phase transitions, progress
//! accumulation, dwell countdown and completion signaling.
//!
//! Progress runs in thousandths; durations in milliseconds. A zero duration
//! completes its phase on the very next update rather than erroring.

use vstd::prelude::*;

verus! {

use crate::geometry::{Position, Rect};
use crate::notification::Notification;
use crate::types::{Animation, AnimationPhase, AutoDismiss, Timing};

/// Durations used when a notification leaves a timing on automatic.
#[derive(Debug, Clone, Copy, PartialEq, Eq, Structural)]
pub struct ManagerDefaults {
    /// Entry animation duration for `Timing::Auto`, in milliseconds.
    pub slide_in_ms: u64,
    /// Exit animation duration for `Timing::Auto`, in milliseconds.
    pub slide_out_ms: u64,
}

impl Default for ManagerDefaults {
    /// Automatic entry and exit animations take 300 milliseconds.
    fn default() -> (d: ManagerDefaults)
        ensures
            d == (ManagerDefaults { slide_in_ms: 300u64, slide_out_ms: 300u64 }),
    {
        ManagerDefaults { slide_in_ms: 300, slide_out_ms: 300 }
    }
}

/// The phase a notification's animation kind enters through.
pub open spec fn spec_entry_phase(a: Animation) -> AnimationPhase {
    match a {
        Animation::Slide => AnimationPhase::SlidingIn,
        Animation::ExpandCollapse => AnimationPhase::Expanding,
        Animation::Fade => AnimationPhase::FadingIn,
    }
}

/// The phase a notification's animation kind leaves through.
pub open spec fn spec_exit_phase(a: Animation) -> AnimationPhase {
    match a {
        Animation::Slide => AnimationPhase::SlidingOut,
        Animation::ExpandCollapse => AnimationPhase::Collapsing,
        Animation::Fade => AnimationPhase::FadingOut,
    }
}

/// The phase a notification's animation kind enters through.
pub fn entry_phase(a: Animation) -> (p: AnimationPhase)
    ensures
        p == spec_entry_phase(a),
{
    match a {
        Animation::Slide => AnimationPhase::SlidingIn,
        Animation::ExpandCollapse => AnimationPhase::Expanding,
        Animation::Fade => AnimationPhase::FadingIn,
    }
}

/// The phase a notification's animation kind leaves through.
pub fn exit_phase(a: Animation) -> (p: AnimationPhase)
    ensures
        p == spec_exit_phase(a),
{
    match a {
        Animation::Slide => AnimationPhase::SlidingOut,
        Animation::ExpandCollapse => AnimationPhase::Collapsing,
        Animation::Fade => AnimationPhase::FadingOut,
    }
}

/// A fixed timing resolves to its own duration; an automatic timing to the
/// given default.
pub open spec fn spec_resolve_timing(t: Timing, default_ms: u64) -> u64 {
    match t {
        Timing::Fixed(ms) => ms,
        Timing::Auto => default_ms,
    }
}

/// The dwell time a notification starts with: none under `Never`; under
/// `After` the dwell timing's fixed duration, or the dismissal delay itself
/// when the dwell timing is automatic.
pub open spec fn spec_initial_remaining(n: Notification) -> Option<u64> {
    match n.auto_dismiss {
        AutoDismiss::Never => None,
        AutoDismiss::After(d) => Some(
            match n.dwell_timing {
                Timing::Fixed(ms) => ms,
                Timing::Auto => d,
            },
        ),
    }
}

/// The dwell time a notification starts with.
pub fn initial_remaining(n: &Notification) -> (r: Option<u64>)
    ensures
        r == spec_initial_remaining(*n),
{
    match n.auto_dismiss {
        AutoDismiss::Never => None,
        AutoDismiss::After(d) => Some(
            match n.dwell_timing {
                Timing::Fixed(ms) => ms,
                Timing::Auto => d,
            },
        ),
    }
}

/// Progress through a phase, in thousandths, after `elapsed` of its `dur`
/// milliseconds have passed. A zero duration counts as complete at once.
pub open spec fn spec_phase_progress(elapsed: int, dur: int) -> int {
    if dur == 0 {
        1000
    } else {
        vstd::math::min(1000, elapsed * 1000 / dur)
    }
}

/// While the phase is unfinished (`elapsed < dur`), its progress stays
/// strictly below completion.
pub proof fn lemma_phase_progress_bounds(elapsed: int, dur: int)
    requires
        0 <= elapsed,
        1 <= dur,
    ensures
        0 <= spec_phase_progress(elapsed, dur) <= 1000,
        elapsed < dur ==> spec_phase_progress(elapsed, dur) < 1000,
{
    assert(elapsed * 1000 >= 0) by (nonlinear_arith)
        requires elapsed >= 0;
    vstd::arithmetic::div_mod::lemma_div_is_ordered(0, elapsed * 1000, dur);
    if elapsed < dur {
        assert(elapsed * 1000 <= (dur - 1) * 1000) by (nonlinear_arith)
            requires elapsed <= dur - 1;
        vstd::arithmetic::div_mod::lemma_div_is_ordered(elapsed * 1000, (dur - 1) * 1000, dur);
        assert((dur - 1) * 1000 / dur <= 999) by (nonlinear_arith)
            requires dur >= 1;
    }
}

/// What `NotificationState::new` builds from a configuration: `Pending` at
/// zero progress, the dwell timer primed from the dismissal policy, the
/// creation ordinal equal to the (monotonically assigned) identifier, an
/// empty target rectangle, the custom entry and exit positions and the
/// exterior margin copied over, and the two animation durations resolved
/// against the defaults.
pub open spec fn spec_fresh_state(
    s: NotificationState,
    id: u64,
    n: Notification,
    d: ManagerDefaults,
) -> bool {
    &&& s.id == id
    &&& s.created_at == id
    &&& s.current_phase is Pending
    &&& s.animation_progress == 0
    &&& s.phase_elapsed_ms == 0
    &&& s.remaining_display_time == spec_initial_remaining(n)
    &&& s.custom_entry_position == n.custom_entry_position
    &&& s.custom_exit_position == n.custom_exit_position
    &&& s.exterior_padding == n.margin
    &&& s.full_rect == (Rect { x: 0u16, y: 0u16, width: 0u16, height: 0u16 })
    &&& s.entry_duration_ms == spec_resolve_timing(n.slide_in_timing, d.slide_in_ms)
    &&& s.exit_duration_ms == spec_resolve_timing(n.slide_out_timing, d.slide_out_ms)
    &&& s.notification == n
}

/// The mutable runtime state of one live notification.
#[derive(Debug)]
pub struct NotificationState {
    /// The unique identifier the manager assigned.
    pub id: u64,
    /// The owned, immutable configuration.
    pub notification: Notification,
    /// The current lifecycle phase.
    pub current_phase: AnimationPhase,
    /// Progress through the current animated phase, in thousandths; derived
    /// from the milliseconds spent in the phase, so progress accumulates
    /// exactly however finely the updates are sliced.
    pub animation_progress: u16,
    /// Milliseconds spent in the current animated phase so far.
    pub phase_elapsed_ms: u64,
    /// Milliseconds of dwell left; `None` exactly under `AutoDismiss::Never`.
    pub remaining_display_time: Option<u64>,
    /// Creation ordinal; later notifications carry larger values.
    pub created_at: u64,
    /// The on-screen target rectangle once fully shown; recomputed per frame.
    pub full_rect: Rect,
    /// Explicit entry position, copied from the configuration.
    pub custom_entry_position: Option<Position>,
    /// Explicit exit position, copied from the configuration.
    pub custom_exit_position: Option<Position>,
    /// Exterior margin, copied from the configuration.
    pub exterior_padding: u16,
    /// Resolved entry animation duration, in milliseconds.
    pub entry_duration_ms: u64,
    /// Resolved exit animation duration, in milliseconds.
    pub exit_duration_ms: u64,
}

impl NotificationState {
    /// The bounds and consistencies every reachable state satisfies:
    /// progress within range, the dwell timer present exactly under
    /// `After`-dismissal, and any animated phase matching the configured
    /// animation kind.
    pub open spec fn wf(self) -> bool {
        &&& self.notification.wf()
        &&& self.animation_progress <= 1000
        &&& (self.remaining_display_time is Some <==> self.notification.auto_dismiss is After)
        &&& (self.current_phase.is_entry() ==> self.current_phase == spec_entry_phase(
            self.notification.animation,
        ))
        &&& (self.current_phase.is_exit() ==> self.current_phase == spec_exit_phase(
            self.notification.animation,
        ))
    }

    /// Wrap a notification into its initial runtime state: phase `Pending`,
    /// zero progress, the dwell timer primed from the dismissal policy, and
    /// the custom entry and exit positions copied over from the
    /// configuration.
    pub fn new(id: u64, notification: Notification, defaults: &ManagerDefaults) -> (s:
        NotificationState)
        requires
            notification.wf(),
        ensures
            spec_fresh_state(s, id, notification, *defaults),
            s.id == id,
            s.created_at == id,
            (s.current_phase is Pending),
            s.animation_progress == 0,
            s.phase_elapsed_ms == 0,
            s.remaining_display_time == spec_initial_remaining(notification),
            s.custom_entry_position == notification.custom_entry_position,
            s.custom_exit_position == notification.custom_exit_position,
            s.exterior_padding == notification.margin,
            s.full_rect == (Rect { x: 0u16, y: 0u16, width: 0u16, height: 0u16 }),
            s.entry_duration_ms == spec_resolve_timing(
                notification.slide_in_timing,
                defaults.slide_in_ms,
            ),
            s.exit_duration_ms == spec_resolve_timing(
                notification.slide_out_timing,
                defaults.slide_out_ms,
            ),
            s.notification == notification,
            s.wf(),
    {
        let remaining = initial_remaining(&notification);
        let entry_duration_ms = match notification.slide_in_timing {
            Timing::Fixed(ms) => ms,
            Timing::Auto => defaults.slide_in_ms,
        };
        let exit_duration_ms = match notification.slide_out_timing {
            Timing::Fixed(ms) => ms,
            Timing::Auto => defaults.slide_out_ms,
        };
        let custom_entry_position = notification.custom_entry_position;
        let custom_exit_position = notification.custom_exit_position;
        let exterior_padding = notification.margin;
        NotificationState {
            id,
            notification,
            current_phase: AnimationPhase::Pending,
            animation_progress: 0,
            phase_elapsed_ms: 0,
            remaining_display_time: remaining,
            created_at: id,
            full_rect: Rect { x: 0, y: 0, width: 0, height: 0 },
            custom_entry_position,
            custom_exit_position,
            exterior_padding,
            entry_duration_ms,
            exit_duration_ms,
        }
    }
}

/// One update step from a non-`Pending` phase: accumulate progress through
/// the entry phase into `Dwelling`, count the dwell timer down into the exit
/// phase, and accumulate progress through the exit phase into `Finished`.
pub open spec fn spec_advance(s: NotificationState, dt: u64) -> NotificationState {
    if s.current_phase.is_entry() {
        if s.entry_duration_ms == 0 || s.phase_elapsed_ms + dt >= s.entry_duration_ms {
            NotificationState {
                current_phase: AnimationPhase::Dwelling,
                animation_progress: 1000,
                phase_elapsed_ms: 0,
                remaining_display_time: spec_initial_remaining(s.notification),
                ..s
            }
        } else {
            let e = s.phase_elapsed_ms + dt;
            NotificationState {
                animation_progress: spec_phase_progress(e, s.entry_duration_ms as int) as u16,
                phase_elapsed_ms: e as u64,
                ..s
            }
        }
    } else if s.current_phase is Dwelling {
        match s.remaining_display_time {
            None => s,
            Some(r) => {
                if dt >= r {
                    NotificationState {
                        current_phase: spec_exit_phase(s.notification.animation),
                        animation_progress: 0,
                        phase_elapsed_ms: 0,
                        remaining_display_time: Some(0u64),
                        ..s
                    }
                } else {
                    NotificationState { remaining_display_time: Some((r - dt) as u64), ..s }
                }
            },
        }
    } else if s.current_phase.is_exit() {
        if s.exit_duration_ms == 0 || s.phase_elapsed_ms + dt >= s.exit_duration_ms {
            NotificationState {
                current_phase: AnimationPhase::Finished,
                animation_progress: 1000,
                phase_elapsed_ms: 0,
                ..s
            }
        } else {
            let e = s.phase_elapsed_ms + dt;
            NotificationState {
                animation_progress: spec_phase_progress(e, s.exit_duration_ms as int) as u16,
                phase_elapsed_ms: e as u64,
                ..s
            }
        }
    } else {
        s
    }
}

/// One update step of the state machine by `dt` milliseconds. `Pending`
/// enters the configured entry phase on this same step and starts
/// accumulating progress at once; `Finished` never changes.
pub open spec fn spec_update(s: NotificationState, dt: u64) -> NotificationState {
    if s.current_phase is Pending {
        spec_advance(
            NotificationState {
                current_phase: spec_entry_phase(s.notification.animation),
                animation_progress: 0,
                phase_elapsed_ms: 0,
                ..s
            },
            dt,
        )
    } else {
        spec_advance(s, dt)
    }
}

/// The update step keeps every state well formed.
pub proof fn lemma_update_preserves_wf(s: NotificationState, dt: u64)
    requires
        s.wf(),
    ensures
        spec_update(s, dt).wf(),
{
    if s.entry_duration_ms > 0 {
        lemma_phase_progress_bounds(
            s.phase_elapsed_ms + dt as int,
            s.entry_duration_ms as int,
        );
    }
    if s.exit_duration_ms > 0 {
        lemma_phase_progress_bounds(s.phase_elapsed_ms + dt as int, s.exit_duration_ms as int);
    }
}

/// Advance this state by `dt` milliseconds.
pub fn update_state(s: &mut NotificationState, dt: u64)
    ensures
        *final(s) == spec_update(*old(s), dt),
{
    let is_pending = match s.current_phase {
        AnimationPhase::Pending => true,
        _ => false,
    };
    if is_pending {
        s.current_phase = entry_phase(s.notification.animation);
        s.animation_progress = 0;
        s.phase_elapsed_ms = 0;
    }
    let is_entry = match s.current_phase {
        AnimationPhase::SlidingIn | AnimationPhase::Expanding | AnimationPhase::FadingIn => true,
        _ => false,
    };
    let is_dwelling = match s.current_phase {
        AnimationPhase::Dwelling => true,
        _ => false,
    };
    let is_exit = match s.current_phase {
        AnimationPhase::SlidingOut | AnimationPhase::Collapsing | AnimationPhase::FadingOut => true,
        _ => false,
    };
    if is_entry {
        let dur = s.entry_duration_ms;
        let complete = dur == 0 || s.phase_elapsed_ms >= dur || dt >= dur - s.phase_elapsed_ms;
        if complete {
            s.current_phase = AnimationPhase::Dwelling;
            s.animation_progress = 1000;
            s.phase_elapsed_ms = 0;
            s.remaining_display_time = initial_remaining(&s.notification);
        } else {
            let e = s.phase_elapsed_ms + dt;
            s.phase_elapsed_ms = e;
            s.animation_progress = phase_progress(e, dur);
        }
    } else if is_dwelling {
        match s.remaining_display_time {
            None => {},
            Some(r) => {
                if dt >= r {
                    s.current_phase = exit_phase(s.notification.animation);
                    s.animation_progress = 0;
                    s.phase_elapsed_ms = 0;
                    s.remaining_display_time = Some(0);
                } else {
                    s.remaining_display_time = Some(r - dt);
                }
            },
        }
    } else if is_exit {
        let dur = s.exit_duration_ms;
        let complete = dur == 0 || s.phase_elapsed_ms >= dur || dt >= dur - s.phase_elapsed_ms;
        if complete {
            s.current_phase = AnimationPhase::Finished;
            s.animation_progress = 1000;
            s.phase_elapsed_ms = 0;
        } else {
            let e = s.phase_elapsed_ms + dt;
            s.phase_elapsed_ms = e;
            s.animation_progress = phase_progress(e, dur);
        }
    }
}

impl NotificationState {
    /// Advance this state by `dt` milliseconds.
    pub fn update(&mut self, dt: u64)
        ensures
            *final(self) == spec_update(*old(self), dt),
    {
        update_state(self, dt)
    }
}

/// Progress through an unfinished phase: `elapsed` of its `dur` milliseconds.
fn phase_progress(elapsed: u64, dur: u64) -> (p: u16)
    requires
        1 <= dur,
        elapsed < dur,
    ensures
        p as int == spec_phase_progress(elapsed as int, dur as int),
        p < 1000,
{
    proof {
        lemma_phase_progress_bounds(elapsed as int, dur as int);
    }
    (elapsed as u128 * 1000 / dur as u128) as u16
}

/// Whether an update step by `dt` moves this state to `Finished` (the state
/// was live before and finished after).
pub open spec fn spec_finishes(s: NotificationState, dt: u64) -> bool {
    !(s.current_phase is Finished) && spec_update(s, dt).current_phase is Finished
}

/// The identifiers, in order, of the states an update step by `dt` moves to
/// `Finished`.
pub open spec fn spec_finished_ids(states: Seq<NotificationState>, dt: u64) -> Seq<u64>
    decreases states.len(),
{
    if states.len() == 0 {
        Seq::empty()
    } else {
        let pre = spec_finished_ids(states.drop_last(), dt);
        if spec_finishes(states.last(), dt) {
            pre.push(states.last().id)
        } else {
            pre
        }
    }
}

/// Advance every state by the same `dt` milliseconds and report which
/// notifications finished during this very call.
///
/// The returned identifiers are exactly those whose state was not yet
/// `Finished` before the call and is `Finished` after it, in the order the
/// states are stored.
pub fn update_states(states: &mut Vec<NotificationState>, dt: u64) -> (finished: Vec<u64>)
    ensures
        final(states)@.len() == old(states)@.len(),
        forall|k: int| 0 <= k < old(states)@.len() ==> final(states)@[k] == spec_update(
            #[trigger] old(states)@[k],
            dt,
        ),
        finished@ == spec_finished_ids(old(states)@, dt),
{
    let ghost orig = states@;
    let mut finished: Vec<u64> = Vec::new();
    let n = states.len();
    let mut i: usize = 0;
    while i < n
        invariant
            n == orig.len(),
            i <= n,
            states@.len() == n,
            forall|k: int| 0 <= k < i ==> states@[k] == spec_update(#[trigger] orig[k], dt),
            forall|k: int| i <= k < n ==> states@[k] == orig[k],
            finished@ == spec_finished_ids(orig.subrange(0, i as int), dt),
        decreases n - i,
    {
        proof {
            assert(orig.subrange(0, i + 1 as int).drop_last() =~= orig.subrange(0, i as int));
            assert(orig.subrange(0, i + 1 as int).last() == orig[i as int]);
        }
        let was_finished = match states[i].current_phase {
            AnimationPhase::Finished => true,
            _ => false,
        };
        let st = &mut states[i];
        update_state(st, dt);
        let now_finished = match states[i].current_phase {
            AnimationPhase::Finished => true,
            _ => false,
        };
        if !was_finished && now_finished {
            finished.push(states[i].id);
        }
        i = i + 1;
    }
    proof {
        assert(orig.subrange(0, n as int) =~= orig);
    }
    finished
}

/// The identifiers `update_states` reports are exactly those of the states
/// that cross into `Finished` on that very step — no others.
pub proof fn lemma_finished_ids_exact(states: Seq<NotificationState>, dt: u64, id: u64)
    ensures
        spec_finished_ids(states, dt).contains(id) <==> (exists|i: int|
            #![auto]
            0 <= i < states.len() && states[i].id == id && spec_finishes(states[i], dt)),
    decreases states.len(),
{
    if states.len() > 0 {
        let prefix = states.drop_last();
        let n = states.len() as int;
        lemma_finished_ids_exact(prefix, dt, id);
        let pre = spec_finished_ids(prefix, dt);
        let last = states.last();
        if spec_finishes(last, dt) {
            assert(spec_finished_ids(states, dt) == pre.push(last.id));
            if pre.contains(id) {
                let k = choose|k: int| 0 <= k < pre.len() && pre[k] == id;
                assert(pre.push(last.id)[k] == id);
                assert(pre.push(last.id).contains(id));
            }
            if last.id == id {
                assert(pre.push(last.id)[pre.len() as int] == id);
                assert(pre.push(last.id).contains(id));
            }
            if pre.push(last.id).contains(id) {
                let k = choose|k: int| 0 <= k < pre.push(last.id).len() && pre.push(last.id)[k]
                    == id;
                if k < pre.len() {
                    assert(pre[k] == id);
                    assert(pre.contains(id));
                } else {
                    assert(last.id == id);
                }
            }
        }
        if exists|i: int|
            #![auto]
            0 <= i < prefix.len() && prefix[i].id == id && spec_finishes(prefix[i], dt) {
            let i = choose|i: int|
                #![auto]
                0 <= i < prefix.len() && prefix[i].id == id && spec_finishes(prefix[i], dt);
            assert(states[i].id == id && spec_finishes(states[i], dt));
        }
        if exists|i: int|
            #![auto]
            0 <= i < states.len() && states[i].id == id && spec_finishes(states[i], dt) {
            let i = choose|i: int|
                #![auto]
                0 <= i < states.len() && states[i].id == id && spec_finishes(states[i], dt);
            if i < n - 1 {
                assert(prefix[i].id == id && spec_finishes(prefix[i], dt));
            }
        }
    }
}

/// While dwelling under `After`-dismissal with time on the clock, any
/// passage of time strictly decreases the remaining display time.
pub proof fn lemma_dwell_strictly_decreases(s: NotificationState, dt: u64)
    requires
        s.current_phase is Dwelling,
        s.remaining_display_time is Some,
        s.remaining_display_time->0 > 0,
        dt > 0,
    ensures
        spec_update(s, dt).remaining_display_time is Some,
        spec_update(s, dt).remaining_display_time->0 < s.remaining_display_time->0,
{
}

/// While dwelling under `Never`-dismissal, no passage of time changes the
/// state at all: the notification dwells until explicitly removed.
pub proof fn lemma_never_dwells_forever(s: NotificationState, dt: u64)
    requires
        s.current_phase is Dwelling,
        s.remaining_display_time is None,
    ensures
        spec_update(s, dt) == s,
{
}

/// A freshly created state driven with its own phase durations walks the
/// whole lifecycle: one update of the entry duration reaches `Dwelling` with
/// progress complete; one further update of the dwell time reaches the exit
/// phase with progress reset; one further update of the exit duration
/// reaches `Finished` with progress complete, and that last step reports the
/// notification as finishing.
pub proof fn lemma_full_lifecycle(s: NotificationState, dwell: u64)
    requires
        s.current_phase is Pending,
        s.animation_progress == 0,
        spec_initial_remaining(s.notification) == Some(dwell),
    ensures
        ({
            let s1 = spec_update(s, s.entry_duration_ms);
            let s2 = spec_update(s1, dwell);
            let s3 = spec_update(s2, s.exit_duration_ms);
            &&& s1.current_phase is Dwelling
            &&& s1.animation_progress == 1000
            &&& s1.remaining_display_time == Some(dwell)
            &&& s2.current_phase == spec_exit_phase(s.notification.animation)
            &&& s2.animation_progress == 0
            &&& s3.current_phase is Finished
            &&& s3.animation_progress == 1000
            &&& spec_finishes(s2, s.exit_duration_ms)
        }),
{
}

/// The total milliseconds of a series of update steps.
pub open spec fn spec_sum(dts: Seq<u64>) -> int
    decreases dts.len(),
{
    if dts.len() == 0 {
        0
    } else {
        dts[0] + spec_sum(dts.drop_first())
    }
}

/// The state after a series of update steps, applied in order.
pub open spec fn spec_apply_updates(s: NotificationState, dts: Seq<u64>) -> NotificationState
    decreases dts.len(),
{
    if dts.len() == 0 {
        s
    } else {
        spec_apply_updates(spec_update(s, dts[0]), dts.drop_first())
    }
}

/// Once a state has left `Pending` and the entry phases behind, no series of
/// updates brings it back to them.
proof fn lemma_settled_phases_stay(s: NotificationState, dts: Seq<u64>)
    requires
        !(s.current_phase is Pending),
        !s.current_phase.is_entry(),
    ensures
        !(spec_apply_updates(s, dts).current_phase is Pending),
        !spec_apply_updates(s, dts).current_phase.is_entry(),
    decreases dts.len(),
{
    if dts.len() > 0 {
        lemma_settled_phases_stay(spec_update(s, dts[0]), dts.drop_first());
    }
}

/// Once a state has reached an exit phase or `Finished`, it stays there.
proof fn lemma_exit_or_finished_stays(s: NotificationState, dts: Seq<u64>)
    requires
        s.current_phase.is_exit() || s.current_phase is Finished,
    ensures
        spec_apply_updates(s, dts).current_phase.is_exit() || spec_apply_updates(
            s,
            dts,
        ).current_phase is Finished,
    decreases dts.len(),
{
    if dts.len() > 0 {
        lemma_exit_or_finished_stays(spec_update(s, dts[0]), dts.drop_first());
    }
}

/// `Finished` is absorbing: updates change nothing.
proof fn lemma_finished_stays(s: NotificationState, dts: Seq<u64>)
    requires
        s.current_phase is Finished,
    ensures
        spec_apply_updates(s, dts) == s,
    decreases dts.len(),
{
    if dts.len() > 0 {
        lemma_finished_stays(spec_update(s, dts[0]), dts.drop_first());
    }
}

/// Cumulative completion of the entry phase: however finely the updates are
/// sliced, once the milliseconds already spent in the phase plus the total
/// of the coming updates reach the phase duration, the state has moved on
/// (to `Dwelling` or beyond) — no tick size can stall an animation.
pub proof fn lemma_entry_phase_completes(s: NotificationState, dts: Seq<u64>)
    requires
        s.current_phase.is_entry(),
        dts.len() >= 1,
        s.phase_elapsed_ms + spec_sum(dts) >= s.entry_duration_ms,
    ensures
        !(spec_apply_updates(s, dts).current_phase is Pending),
        !spec_apply_updates(s, dts).current_phase.is_entry(),
    decreases dts.len(),
{
    let s1 = spec_update(s, dts[0]);
    let rest = dts.drop_first();
    if s.entry_duration_ms == 0 || s.phase_elapsed_ms + dts[0] >= s.entry_duration_ms {
        lemma_settled_phases_stay(s1, rest);
    } else {
        assert(s1.phase_elapsed_ms == s.phase_elapsed_ms + dts[0]);
        assert(s1.current_phase == s.current_phase);
        assert(s1.entry_duration_ms == s.entry_duration_ms);
        assert(spec_sum(dts) == dts[0] + spec_sum(rest));
        if rest.len() == 0 {
            assert(spec_sum(rest) == 0);
        }
        lemma_entry_phase_completes(s1, rest);
    }
}

/// Cumulative completion of the dwell: once the updates' total reaches the
/// remaining display time, the state has moved to its exit phase or beyond.
pub proof fn lemma_dwell_completes(s: NotificationState, dts: Seq<u64>)
    requires
        s.current_phase is Dwelling,
        s.remaining_display_time is Some,
        dts.len() >= 1,
        spec_sum(dts) >= s.remaining_display_time->0,
    ensures
        spec_apply_updates(s, dts).current_phase.is_exit() || spec_apply_updates(
            s,
            dts,
        ).current_phase is Finished,
    decreases dts.len(),
{
    let s1 = spec_update(s, dts[0]);
    let rest = dts.drop_first();
    if dts[0] >= s.remaining_display_time->0 {
        lemma_exit_or_finished_stays(s1, rest);
    } else {
        assert(s1.remaining_display_time == Some(
            (s.remaining_display_time->0 - dts[0]) as u64,
        ));
        assert(spec_sum(dts) == dts[0] + spec_sum(rest));
        if rest.len() == 0 {
            assert(spec_sum(rest) == 0);
        }
        lemma_dwell_completes(s1, rest);
    }
}

/// Cumulative completion of the exit phase: once the milliseconds already
/// spent in the phase plus the updates' total reach the phase duration, the
/// state is `Finished`.
pub proof fn lemma_exit_phase_completes(s: NotificationState, dts: Seq<u64>)
    requires
        s.current_phase.is_exit(),
        dts.len() >= 1,
        s.phase_elapsed_ms + spec_sum(dts) >= s.exit_duration_ms,
    ensures
        spec_apply_updates(s, dts).current_phase is Finished,
    decreases dts.len(),
{
    let s1 = spec_update(s, dts[0]);
    let rest = dts.drop_first();
    if s.exit_duration_ms == 0 || s.phase_elapsed_ms + dts[0] >= s.exit_duration_ms {
        lemma_finished_stays(s1, rest);
    } else {
        assert(s1.phase_elapsed_ms == s.phase_elapsed_ms + dts[0]);
        assert(s1.current_phase == s.current_phase);
        assert(s1.exit_duration_ms == s.exit_duration_ms);
        assert(spec_sum(dts) == dts[0] + spec_sum(rest));
        if rest.len() == 0 {
            assert(spec_sum(rest) == 0);
        }
        lemma_exit_phase_completes(s1, rest);
    }
}

} // verus!
