//! A worker: an identifier together with a counter that each task advances
//! by exactly one.

use vstd::prelude::*;

verus! {

/// A worker with a caller-assigned identifier and a monotonic counter.
///
/// The identifier is opaque: it is not validated for uniqueness and never
/// changes. The counter starts at a caller-supplied value and grows by
/// exactly one per task performed.
pub struct Worker {
    id: usize,
    state: usize,
}

impl Worker {
    /// The worker's identifier.
    pub closed spec fn id(&self) -> usize {
        self.id
    }

    /// The worker's counter.
    pub closed spec fn state(&self) -> usize {
        self.state
    }

    /// Constructs a worker whose counter starts at `state`.
    ///
    /// Any `id` and any `state` are accepted.
    pub fn new(id: usize, state: usize) -> (w: Worker)
        ensures
            w.id() == id,
            w.state() == state,
    {
        Worker { id, state }
    }

    /// Performs one task: the counter grows by exactly one, and the
    /// identifier is unchanged.
    pub fn perform_task(&mut self)
        requires
            old(self).state() < usize::MAX,
        ensures
            final(self).id() == old(self).id(),
            final(self).state() == old(self).state() + 1,
    {
        self.state = self.state + 1;
    }

    /// Reports the current counter value. A pure read: the worker is not
    /// changed.
    pub fn report_state(&self) -> (r: usize)
        ensures
            r == self.state(),
    {
        self.state
    }
}

/// The counter value after `n` tasks, starting from `s0`: one unit step per
/// call of [`Worker::perform_task`].
pub open spec fn counter_after(s0: int, n: nat) -> int
    decreases n,
{
    if n == 0 {
        s0
    } else {
        counter_after(s0, (n - 1) as nat) + 1
    }
}

/// After any number `n` of tasks, the counter equals its initial value
/// plus `n`.
pub proof fn lemma_counter_after_tasks(s0: int, n: nat)
    ensures
        counter_after(s0, n) == s0 + n,
    decreases n,
{
    if n > 0 {
        lemma_counter_after_tasks(s0, (n - 1) as nat);
    }
}

} // verus!
