//! The concurrency controller's counting state: a bounded pool of build
//! slots. A slot is acquired before staging begins and released when the
//! request's span ends, so the number of simultaneous build invocations
//! never exceeds the configured capacity.

use vstd::prelude::*;

verus! {

/// The slot counter shared by all in-flight requests.
pub struct SlotPool {
    pub capacity: u64,
    pub in_use: u64,
}

impl SlotPool {
    /// The counter never records more slots in use than exist.
    pub open spec fn wf(self) -> bool {
        self.in_use <= self.capacity
    }

    pub fn new(capacity: u64) -> (p: SlotPool)
        ensures
            p.wf(),
            p.capacity == capacity,
            p.in_use == 0,
    {
        SlotPool { capacity, in_use: 0 }
    }

    /// Grants a slot exactly when one is free.
    pub fn try_acquire(&mut self) -> (granted: bool)
        requires
            old(self).wf(),
        ensures
            final(self).wf(),
            final(self).capacity == old(self).capacity,
            granted == (old(self).in_use < old(self).capacity),
            granted ==> final(self).in_use == old(self).in_use + 1,
            !granted ==> final(self).in_use == old(self).in_use,
    {
        if self.in_use < self.capacity {
            self.in_use = self.in_use + 1;
            true
        } else {
            false
        }
    }

    /// Returns a slot to the pool. Releasing with nothing held is a no-op,
    /// so a release on every exit path is safe even when acquisition never
    /// happened.
    pub fn release(&mut self)
        requires
            old(self).wf(),
        ensures
            final(self).wf(),
            final(self).capacity == old(self).capacity,
            old(self).in_use > 0 ==> final(self).in_use == old(self).in_use - 1,
            old(self).in_use == 0 ==> final(self).in_use == 0,
    {
        if self.in_use > 0 {
            self.in_use = self.in_use - 1;
        }
    }
}

/// Concurrency bound: however acquisitions and releases interleave, a
/// well-formed pool never has more slots in use than its capacity, so no
/// more than `capacity` build invocations run at once.
pub proof fn lemma_slots_bounded(p: SlotPool)
    requires
        p.wf(),
    ensures
        p.in_use <= p.capacity,
{
}

} // verus!
