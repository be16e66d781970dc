//! Registry of scheduled timers, keyed by the id handed out when a timer is set.
use std::collections::HashMap;
use vstd::prelude::*;

verus! {

/// A scheduled job of the `timer` crate; dropping it cancels the job.
#[verifier::external_type_specification]
#[verifier::external_body]
pub struct ExGuard(::timer::Guard);

/// The timers that are currently active, each held by the guard that keeps
/// its scheduled job alive.
pub struct Timer {
    active_timers: HashMap<usize, ::timer::Guard>,
}

impl View for Timer {
    type V = Map<usize, ::timer::Guard>;

    closed spec fn view(&self) -> Map<usize, ::timer::Guard> {
        self.active_timers@
    }
}

/// Whether a fired timer event `(id, repeating)` retires an active timer.
pub open spec fn retires(active: Set<usize>, event: (usize, bool)) -> bool {
    !event.1 && active.contains(event.0)
}

impl Timer {
    /// An empty registry.
    pub fn new() -> (t: Self)
        ensures
            t@ == Map::<usize, ::timer::Guard>::empty(),
    {
        Timer { active_timers: HashMap::new() }
    }

    /// The number of active timers.
    pub fn len(&self) -> (n: usize)
        ensures
            n == self@.len(),
    {
        self.active_timers.len()
    }

    /// Whether the timer with this id is active.
    pub fn is_active(&self, id: usize) -> (b: bool)
        ensures
            b == self@.contains_key(id),
    {
        self.active_timers.contains_key(&id)
    }

    /// Sets a timer: its id is one more than the number of active timers, and
    /// `schedule` is called with that id, `repeating` and `duration` (in
    /// milliseconds) to start the job. The guard it returns is kept under the
    /// id (replacing, and so cancelling, any timer that held the same id).
    /// While the active ids are `1..=n`, the id is fresh and they become
    /// `1..=n + 1`.
    pub fn set_timer<F: FnOnce(usize, bool, i64) -> ::timer::Guard>(
        &mut self,
        schedule: F,
        repeating: bool,
        duration: i64,
    ) -> (id: usize)
        requires
            old(self)@.len() < usize::MAX,
            forall|i: usize| call_requires(schedule, (i, repeating, duration)),
        ensures
            id == old(self)@.len() + 1,
            old(self)@.dom() == ids_up_to(old(self)@.len()) ==> {
                &&& !old(self)@.contains_key(id)
                &&& final(self)@.len() == old(self)@.len() + 1
                &&& final(self)@.dom() == ids_up_to(final(self)@.len())
            },
            final(self)@.dom() == old(self)@.dom().insert(id),
            final(self)@.dom().finite(),
            !old(self)@.contains_key(id) ==> final(self)@.len() == old(self)@.len() + 1,
            old(self)@.contains_key(id) ==> final(self)@.len() == old(self)@.len(),
            forall|k: usize| k != id && old(self)@.contains_key(k) ==> final(self)@[k] == old(self)@[k],
            call_ensures(schedule, (id, repeating, duration), final(self)@[id]),
    {
        let id = self.active_timers.len() + 1;
        let guard = schedule(id, repeating, duration);
        proof {
            lemma_registry_finite(self);
            if self@.dom() == ids_up_to(self@.len()) {
                lemma_ids_stay_contiguous(self, guard);
            }
        }
        self.active_timers.insert(id, guard);
        id
    }

    /// Kills a timer. Returns whether it was active; an active timer is
    /// removed (its guard dropped), an unknown id changes nothing.
    pub fn kill_timer(&mut self, id: usize) -> (killed: bool)
        ensures
            killed == old(self)@.contains_key(id),
            final(self)@ == old(self)@.remove(id),
    {
        if self.active_timers.contains_key(&id) {
            self.active_timers.remove(&id);
            true
        } else {
            proof {
                assert(old(self)@.remove(id) =~= old(self)@);
            }
            false
        }
    }
    /// Handles the timer events that fired since the last tick, in order.
    /// Each handled event's callback is due; the first event that retires an
    /// active one-shot timer removes that timer and ends the tick, leaving the
    /// events after it for the next tick. Returns how many events were handled.
    pub fn on_tick(&mut self, fired: &Vec<(usize, bool)>) -> (handled: usize)
        ensures
            handled <= fired@.len(),
            forall|j: int| 0 <= j < handled - 1 ==> !retires(old(self)@.dom(), #[trigger] fired@[j]),
            (exists|j: int| 0 <= j < fired@.len() && retires(old(self)@.dom(), #[trigger] fired@[j]))
                ==> {
                &&& handled >= 1
                &&& retires(old(self)@.dom(), fired@[handled - 1])
                &&& final(self)@ == old(self)@.remove(fired@[handled - 1].0)
            },
            !(exists|j: int| 0 <= j < fired@.len() && retires(old(self)@.dom(), #[trigger] fired@[j]))
                ==> {
                &&& handled == fired@.len()
                &&& final(self)@ == old(self)@
            },
    {
        let mut i: usize = 0;
        while i < fired.len()
            invariant
                i <= fired@.len(),
                self@ == old(self)@,
                forall|j: int| 0 <= j < i ==> !retires(old(self)@.dom(), #[trigger] fired@[j]),
            decreases fired@.len() - i,
        {
            let (id, repeating) = fired[i];
            if !repeating && self.active_timers.contains_key(&id) {
                self.active_timers.remove(&id);
                return i + 1;
            }
            i = i + 1;
        }
        i
    }
}

/// The ids `1..=n`.
pub open spec fn ids_up_to(n: nat) -> Set<usize> {
    Set::new(|i: usize| 1 <= i <= n)
}

/// A registry holds finitely many timers.
pub proof fn lemma_registry_finite(t: &Timer)
    ensures
        t@.dom().finite(),
{
    assert(t.active_timers@.dom().finite());
}

/// While the active ids are exactly `1..=n` (as they are when no timer was
/// killed out of order), setting a timer hands out the fresh id `n + 1`, adds
/// one timer and keeps the ids `1..=n + 1`; killing that timer right away
/// finds it (so no warning is logged) and gives back the registry as it was.
pub proof fn lemma_ids_stay_contiguous(t: &Timer, g: ::timer::Guard)
    requires
        t@.dom() == ids_up_to(t@.len()),
        t@.len() < usize::MAX,
    ensures
        ({
            let id = (t@.len() + 1) as usize;
            let after = t@.insert(id, g);
            &&& !t@.contains_key(id)
            &&& after.len() == t@.len() + 1
            &&& after.dom() == ids_up_to(t@.len() + 1)
            &&& after.contains_key(id)
            &&& after.remove(id) == t@
        }),
{
    lemma_registry_finite(t);
    let id = (t@.len() + 1) as usize;
    let after = t@.insert(id, g);
    assert(!ids_up_to(t@.len()).contains(id));
    assert(after.dom() =~= ids_up_to(t@.len() + 1));
    assert(after.remove(id) =~= t@);
}

/// Killing the timer that was just set, while the ids were `1..=n`, finds it
/// (so no warning is logged) and gives back exactly the ids `1..=n`.
pub proof fn lemma_set_then_kill(before: &Timer, after_set: &Timer, id: usize)
    requires
        before@.dom() == ids_up_to(before@.len()),
        id == before@.len() + 1,
        after_set@.dom() == before@.dom().insert(id),
    ensures
        after_set@.contains_key(id),
        after_set@.remove(id).dom() == before@.dom(),
        after_set@.remove(id).dom() == ids_up_to(before@.len()),
{
    assert(!ids_up_to(before@.len()).contains(id));
    assert(after_set@.remove(id).dom() =~= before@.dom());
}

/// Killing is idempotent: once a timer is killed, killing it again finds
/// nothing and changes nothing.
pub proof fn lemma_kill_twice(t: &Timer, id: usize)
    ensures
        !t@.remove(id).contains_key(id),
        t@.remove(id).remove(id) == t@.remove(id),
{
}

/// A firing one-shot timer that is active is retired; a repeating timer, or
/// a timer that is no longer active, never is.
pub proof fn lemma_firing_retires_one_shot_only(active: Set<usize>, id: usize)
    ensures
        retires(active, (id, false)) <==> active.contains(id),
        !retires(active, (id, true)),
        !active.contains(id) ==> !retires(active, (id, false)),
{
}

/// The ids `1..=n` are exactly the numbers from 1 to `n`.
pub proof fn lemma_ids_up_to_members(n: nat, i: usize)
    ensures
        ids_up_to(n).contains(i) <==> 1 <= i <= n,
{
}

} // verus!
