//! The notification manager: the top-level owner of every live
//! notification's state. It assigns identifiers, enforces the global
//! concurrency limit and overflow policy, and drives the per-frame tick.

use vstd::prelude::*;

verus! {

use crate::notification::Notification;
use crate::state::{ManagerDefaults, NotificationState, spec_fresh_state, spec_update,
    update_states, lemma_update_preserves_wf};
use crate::types::{AnimationPhase, NotificationError, Overflow};

/// The well-formedness of a manager's state list against its counter: every
/// state well formed, every identifier below the counter and equal to its
/// creation ordinal, and identifiers strictly increasing along the list (so
/// the first entry is the globally oldest).
pub open spec fn spec_states_wf(states: Seq<NotificationState>, next: u64) -> bool {
    &&& (forall|i: int| 0 <= i < states.len() ==> (#[trigger] states[i]).wf())
    &&& (forall|i: int| 0 <= i < states.len() ==> (#[trigger] states[i]).id < next)
    &&& (forall|i: int|
        0 <= i < states.len() ==> (#[trigger] states[i]).created_at == states[i].id)
    &&& (forall|i: int, j: int|
        0 <= i < j < states.len() ==> (#[trigger] states[i]).id < (#[trigger] states[j]).id)
}

/// In a well-formed state list the first entry is the globally oldest by
/// creation ordinal; the overflow policy `DiscardOldest` therefore evicts
/// exactly the oldest live notification.
pub proof fn lemma_first_is_oldest(states: Seq<NotificationState>, next: u64)
    requires
        spec_states_wf(states, next),
        states.len() > 0,
    ensures
        forall|i: int| 0 <= i < states.len() ==> states[0].created_at <= (
        #[trigger] states[i]).created_at,
{
    assert forall|i: int| 0 <= i < states.len() implies states[0].created_at <= (
    #[trigger] states[i]).created_at by {
        if i > 0 {
            assert(states[0].id < states[i].id);
        }
    }
}

/// The live states left after one update step by `dt`: each state advanced,
/// those that reach `Finished` dropped, the rest in their original order.
pub open spec fn spec_live_after(states: Seq<NotificationState>, dt: u64) -> Seq<
    NotificationState,
>
    decreases states.len(),
{
    if states.len() == 0 {
        Seq::empty()
    } else {
        let pre = spec_live_after(states.drop_last(), dt);
        let u = spec_update(states.last(), dt);
        if u.current_phase is Finished {
            pre
        } else {
            pre.push(u)
        }
    }
}

/// Helper facts about `spec_live_after`: its states are the updates of some
/// subsequence, so well-formedness and ordering carry over.
proof fn lemma_live_after_wf(states: Seq<NotificationState>, next: u64, dt: u64)
    requires
        spec_states_wf(states, next),
    ensures
        spec_states_wf(spec_live_after(states, dt), next),
        spec_live_after(states, dt).len() > 0 && states.len() > 0
            ==> spec_live_after(states, dt).last().id <= states.last().id,
        spec_live_after(states, dt).len() <= states.len(),
    decreases states.len(),
{
    if states.len() > 0 {
        let prefix = states.drop_last();
        assert(spec_states_wf(prefix, next));
        lemma_live_after_wf(prefix, next, dt);
        let pre = spec_live_after(prefix, dt);
        let u = spec_update(states.last(), dt);
        lemma_update_preserves_wf(states.last(), dt);
        if !(u.current_phase is Finished) {
            assert forall|i: int, j: int|
                0 <= i < j < pre.push(u).len() implies (#[trigger] pre.push(u)[i]).id < (
            #[trigger] pre.push(u)[j]).id by {
                if j < pre.len() {
                    assert(pre.push(u)[i] == pre[i]);
                    assert(pre.push(u)[j] == pre[j]);
                } else {
                    assert(pre.push(u)[j] == u);
                    assert(pre.push(u)[i] == pre[i]);
                    if prefix.len() > 0 {
                        assert(pre[i].id <= prefix.last().id);
                        assert(prefix.last().id < states.last().id);
                    }
                }
            }
        }
    }
}

/// The top-level notification manager.
///
/// Owns every live notification's state, hands out sequential identifiers,
/// and applies the global concurrency limit and overflow policy across all
/// anchors together. The fields are open for inspection; the methods keep
/// [`Notifications::wf`] and expect it of the values they are given.
#[derive(Debug)]
pub struct Notifications {
    /// The live states, in creation order (oldest first).
    pub states: Vec<NotificationState>,
    /// The next identifier to assign.
    pub next_id: u64,
    /// The global cap on concurrently live notifications, if any.
    pub max_concurrent: Option<usize>,
    /// Which notification yields when the cap is exceeded.
    pub overflow: Overflow,
    /// Durations for automatic timings.
    pub defaults: ManagerDefaults,
}

impl Notifications {
    /// A manager invariant: the state list well formed against the counter.
    pub open spec fn wf(self) -> bool {
        spec_states_wf(self.states@, self.next_id)
    }

    /// An empty manager: no notifications, no concurrency limit, oldest
    /// discarded on overflow.
    pub fn new() -> (m: Notifications)
        ensures
            m.states@.len() == 0,
            m.next_id == 0,
            m.max_concurrent is None,
            (m.overflow is DiscardOldest),
            m.defaults == (ManagerDefaults { slide_in_ms: 300u64, slide_out_ms: 300u64 }),
            m.wf(),
    {
        Notifications {
            states: Vec::new(),
            next_id: 0,
            max_concurrent: None,
            overflow: Overflow::DiscardOldest,
            defaults: ManagerDefaults { slide_in_ms: 300, slide_out_ms: 300 },
        }
    }

    /// This manager with the global concurrency limit replaced.
    pub fn max_concurrent(self, max: Option<usize>) -> (m: Notifications)
        ensures
            m == (Notifications { max_concurrent: max, ..self }),
    {
        Notifications { max_concurrent: max, ..self }
    }

    /// This manager with the overflow policy replaced.
    pub fn overflow(self, overflow: Overflow) -> (m: Notifications)
        ensures
            m == (Notifications { overflow, ..self }),
    {
        Notifications { overflow, ..self }
    }

    /// Add a notification: assign it the next identifier and wrap it into a
    /// fresh state.
    ///
    /// When a concurrency limit is set and the list is full, the overflow
    /// policy decides: `DiscardOldest` evicts the single oldest live
    /// notification (the first of the list) before inserting;
    /// `DiscardNewest` consumes the identifier but drops the incoming
    /// notification at once. The call itself always succeeds and returns
    /// the assigned identifier.
    pub fn add(&mut self, notification: Notification) -> (r: Result<u64, NotificationError>)
        requires
            old(self).wf(),
            old(self).next_id < u64::MAX,
            notification.wf(),
        ensures
            final(self).wf(),
            r == Ok::<u64, NotificationError>(old(self).next_id),
            final(self).next_id == old(self).next_id + 1,
            final(self).max_concurrent == old(self).max_concurrent,
            final(self).overflow == old(self).overflow,
            final(self).defaults == old(self).defaults,
            ({
                let over = old(self).max_concurrent is Some && old(self).states@.len() >= old(
                    self,
                ).max_concurrent->0;
                let n = old(self).states@.len() as int;
                &&& (!over || (old(self).overflow is DiscardOldest && n == 0)) ==> {
                    &&& final(self).states@.len() == n + 1
                    &&& final(self).states@.subrange(0, n) == old(self).states@
                    &&& spec_fresh_state(
                        final(self).states@[n],
                        old(self).next_id,
                        notification,
                        old(self).defaults,
                    )
                }
                &&& (over && old(self).overflow is DiscardOldest && n > 0) ==> {
                    &&& final(self).states@.len() == n
                    &&& final(self).states@.subrange(0, n - 1) == old(self).states@.subrange(1, n)
                    &&& spec_fresh_state(
                        final(self).states@[n - 1],
                        old(self).next_id,
                        notification,
                        old(self).defaults,
                    )
                }
                &&& (over && old(self).overflow is DiscardNewest) ==> final(self).states@ == old(
                    self,
                ).states@
            }),
    {
        let id = self.next_id;
        self.next_id = self.next_id + 1;
        let over = match self.max_concurrent {
            Some(k) => self.states.len() >= k,
            None => false,
        };
        let discard_newest = match self.overflow {
            Overflow::DiscardNewest => true,
            Overflow::DiscardOldest => false,
        };
        if over && discard_newest {
            return Ok(id);
        }
        let mut evicted = false;
        if over && self.states.len() > 0 {
            self.states.remove(0);
            evicted = true;
        }
        let ghost orig = old(self).states@;
        let ghost mid = self.states@;
        let fresh = NotificationState::new(id, notification, &self.defaults);
        self.states.push(fresh);
        proof {
            if evicted {
                assert(mid =~= orig.subrange(1, orig.len() as int));
            } else {
                assert(mid == orig);
            }
            assert forall|a: int|
                0 <= a < self.states@.len() implies ((#[trigger] self.states@[a]).wf()
                && self.states@[a].id < self.next_id && self.states@[a].created_at
                == self.states@[a].id) by {
                if a < mid.len() {
                    assert(self.states@[a] == mid[a]);
                    if evicted {
                        assert(mid[a] == orig[a + 1]);
                    }
                } else {
                    assert(self.states@[a] == fresh);
                }
            }
            assert forall|a: int, b: int|
                0 <= a < b < self.states@.len() implies (#[trigger] self.states@[a]).id < (
            #[trigger] self.states@[b]).id by {
                if b < mid.len() {
                    assert(self.states@[a] == mid[a]);
                    assert(self.states@[b] == mid[b]);
                    if evicted {
                        assert(mid[a] == orig[a + 1]);
                        assert(mid[b] == orig[b + 1]);
                    }
                } else {
                    assert(self.states@[b] == fresh);
                    assert(self.states@[a] == mid[a]);
                    if evicted {
                        assert(mid[a] == orig[a + 1]);
                    }
                }
            }
            if !evicted {
                assert(self.states@.subrange(0, orig.len() as int) =~= orig);
            } else {
                assert(self.states@.subrange(0, orig.len() - 1) =~= orig.subrange(
                    1,
                    orig.len() as int,
                ));
            }
        }
        Ok(id)
    }

    /// Remove the notification with the given identifier; report whether one
    /// existed.
    pub fn remove(&mut self, id: u64) -> (r: bool)
        requires
            old(self).wf(),
        ensures
            final(self).wf(),
            final(self).next_id == old(self).next_id,
            final(self).max_concurrent == old(self).max_concurrent,
            final(self).overflow == old(self).overflow,
            final(self).defaults == old(self).defaults,
            r <==> (exists|i: int|
                0 <= i < old(self).states@.len() && (#[trigger] old(self).states@[i]).id == id),
            !r ==> final(self).states@ == old(self).states@,
            r ==> (exists|i: int|
                #![auto]
                0 <= i < old(self).states@.len() && old(self).states@[i].id == id
                    && final(self).states@ == old(self).states@.remove(i)),
    {
        let n = self.states.len();
        let mut i: usize = 0;
        while i < n
            invariant
                n == self.states@.len(),
                i <= n,
                *self == *old(self),
                old(self).wf(),
                forall|k: int| 0 <= k < i ==> (#[trigger] self.states@[k]).id != id,
            decreases n - i,
        {
            if self.states[i].id == id {
                self.states.remove(i);
                proof {
                    let orig = old(self).states@;
                    let ii = i as int;
                    assert forall|a: int|
                        0 <= a < self.states@.len() implies #[trigger] self.states@[a] == (if a < ii {
                        orig[a]
                    } else {
                        orig[a + 1]
                    }) by {
                        if a < ii {
                            assert(orig.remove(ii)[a] == orig[a]);
                        } else {
                            assert(orig.remove(ii)[a] == orig[a + 1]);
                        }
                    }
                    assert forall|a: int|
                        0 <= a < self.states@.len() implies ((#[trigger] self.states@[a]).wf()
                        && self.states@[a].id < self.next_id && self.states@[a].created_at
                        == self.states@[a].id) by {}
                    assert forall|a: int, b: int|
                        0 <= a < b < self.states@.len() implies (#[trigger] self.states@[a]).id < (
                    #[trigger] self.states@[b]).id by {}
                }
                return true;
            }
            i = i + 1;
        }
        false
    }

    /// Remove every notification.
    pub fn clear(&mut self)
        ensures
            final(self).states@.len() == 0,
            final(self).next_id == old(self).next_id,
            final(self).max_concurrent == old(self).max_concurrent,
            final(self).overflow == old(self).overflow,
            final(self).defaults == old(self).defaults,
            final(self).wf(),
    {
        self.states.clear();
    }

    /// Advance every live notification by the same `dt` milliseconds and
    /// drop those that finished during this very call.
    pub fn tick(&mut self, dt: u64)
        requires
            old(self).wf(),
        ensures
            final(self).wf(),
            final(self).states@ == spec_live_after(old(self).states@, dt),
            final(self).next_id == old(self).next_id,
            final(self).max_concurrent == old(self).max_concurrent,
            final(self).overflow == old(self).overflow,
            final(self).defaults == old(self).defaults,
    {
        let ghost orig = self.states@;
        let _finished = update_states(&mut self.states, dt);
        let ghost updated = self.states@;
        let total = self.states.len();
        let mut i: usize = 0;
        let mut j: usize = 0;
        while i < self.states.len()
            invariant
                updated.len() == total,
                j <= updated.len(),
                self.states@ == spec_live_after_prefix(updated, j as int) + updated.subrange(
                    j as int,
                    updated.len() as int,
                ),
                i as int == spec_live_after_prefix(updated, j as int).len(),
                self.next_id == old(self).next_id,
                self.max_concurrent == old(self).max_concurrent,
                self.overflow == old(self).overflow,
                self.defaults == old(self).defaults,
            decreases updated.len() - j,
        {
            proof {
                assert(self.states@.len() == spec_live_after_prefix(updated, j as int).len() + (
                updated.len() - j));
                assert(j < updated.len());
                assert(self.states@[i as int] == updated[j as int]);
                lemma_live_after_prefix_step(updated, j as int);
            }
            let finished = match self.states[i].current_phase {
                AnimationPhase::Finished => true,
                _ => false,
            };
            if finished {
                self.states.remove(i);
                proof {
                    assert(self.states@ =~= spec_live_after_prefix(updated, j + 1 as int)
                        + updated.subrange(j + 1 as int, updated.len() as int));
                }
            } else {
                proof {
                    assert(self.states@ =~= spec_live_after_prefix(updated, j + 1 as int)
                        + updated.subrange(j + 1 as int, updated.len() as int));
                }
                i = i + 1;
            }
            j = j + 1;
        }
        proof {
            assert(updated.subrange(updated.len() as int, updated.len() as int) =~= Seq::<
                NotificationState,
            >::empty());
            assert(self.states@ =~= spec_live_after_prefix(updated, updated.len() as int));
            lemma_live_after_full(orig, updated, dt);
            lemma_live_after_wf(orig, old(self).next_id, dt);
        }
    }

    /// The state of the notification with the given identifier, if live.
    pub fn get(&self, id: u64) -> (r: Option<&NotificationState>)
        ensures
            (r is Some) <==> (exists|i: int|
                0 <= i < self.states@.len() && (#[trigger] self.states@[i]).id == id),
            r matches Some(s) ==> (exists|i: int|
                #![auto]
                0 <= i < self.states@.len() && self.states@[i].id == id && *s == self.states@[i]),
    {
        let n = self.states.len();
        let mut i: usize = 0;
        while i < n
            invariant
                n == self.states@.len(),
                i <= n,
                forall|k: int| 0 <= k < i ==> (#[trigger] self.states@[k]).id != id,
            decreases n - i,
        {
            if self.states[i].id == id {
                return Some(&self.states[i]);
            }
            i = i + 1;
        }
        None
    }
}

impl Default for Notifications {
    /// An empty manager with no concurrency limit.
    fn default() -> (m: Notifications)
        ensures
            m.states@.len() == 0,
            m.next_id == 0,
            m.max_concurrent is None,
            (m.overflow is DiscardOldest),
            m.defaults == (ManagerDefaults { slide_in_ms: 300u64, slide_out_ms: 300u64 }),
            m.wf(),
    {
        Notifications::new()
    }
}

/// The live states among the updates of the first `j` of `updated`.
pub open spec fn spec_live_after_prefix(updated: Seq<NotificationState>, j: int) -> Seq<
    NotificationState,
>
    decreases j,
{
    if j <= 0 {
        Seq::empty()
    } else {
        let pre = spec_live_after_prefix(updated, j - 1);
        if updated[j - 1].current_phase is Finished {
            pre
        } else {
            pre.push(updated[j - 1])
        }
    }
}

proof fn lemma_live_after_prefix_step(updated: Seq<NotificationState>, j: int)
    requires
        0 <= j,
    ensures
        spec_live_after_prefix(updated, j + 1) == if updated[j].current_phase is Finished {
            spec_live_after_prefix(updated, j)
        } else {
            spec_live_after_prefix(updated, j).push(updated[j])
        },
{
}

/// When `updated` is the pointwise update of `orig`, the live prefix of
/// `updated` agrees with `spec_live_after` on the matching prefix of `orig`.
proof fn lemma_live_after_matches(
    orig: Seq<NotificationState>,
    updated: Seq<NotificationState>,
    dt: u64,
    j: int,
)
    requires
        orig.len() == updated.len(),
        forall|k: int| 0 <= k < orig.len() ==> updated[k] == spec_update(#[trigger] orig[k], dt),
        0 <= j <= orig.len(),
    ensures
        spec_live_after_prefix(updated, j) == spec_live_after(orig.subrange(0, j), dt),
    decreases j,
{
    if j > 0 {
        lemma_live_after_matches(orig, updated, dt, j - 1);
        assert(orig.subrange(0, j).drop_last() =~= orig.subrange(0, j - 1));
        assert(orig.subrange(0, j).last() == orig[j - 1]);
    }
}

proof fn lemma_live_after_full(
    orig: Seq<NotificationState>,
    updated: Seq<NotificationState>,
    dt: u64,
)
    requires
        orig.len() == updated.len(),
        forall|k: int| 0 <= k < orig.len() ==> updated[k] == spec_update(#[trigger] orig[k], dt),
    ensures
        spec_live_after_prefix(updated, updated.len() as int) == spec_live_after(orig, dt),
{
    lemma_live_after_matches(orig, updated, dt, orig.len() as int);
    assert(orig.subrange(0, orig.len() as int) =~= orig);
}

} // verus!
