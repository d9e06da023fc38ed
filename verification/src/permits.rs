//! The counting permit pool.
//!
//! A fixed-capacity pool of permits caps how many upload tasks may be
//! actively transmitting at once, regardless of how many tasks exist. A
//! task acquires a permit before sending and returns it unconditionally
//! when done, success or failure.

use vstd::prelude::*;

verus! {

pub struct PermitPool {
    /// The fixed number of permits: the concurrency limit.
    pub capacity: usize,
    /// Permits currently held.
    pub acquired: usize,
}

impl PermitPool {
    /// Well-formedness: never more permits out than the pool holds.
    pub open spec fn wf(&self) -> bool {
        self.acquired <= self.capacity
    }

    pub fn new(capacity: usize) -> (p: Self)
        requires
            capacity >= 1,
        ensures
            p.wf(),
            p.capacity == capacity,
            p.acquired == 0,
    {
        PermitPool { capacity, acquired: 0 }
    }

    /// Take a permit if one is free. Succeeds exactly when fewer than
    /// `capacity` permits are out.
    pub fn try_acquire(&mut self) -> (granted: bool)
        requires
            old(self).wf(),
        ensures
            final(self).wf(),
            final(self).capacity == old(self).capacity,
            granted <==> old(self).acquired < old(self).capacity,
            granted ==> final(self).acquired == old(self).acquired + 1,
            !granted ==> final(self).acquired == old(self).acquired,
    {
        if self.acquired < self.capacity {
            self.acquired = self.acquired + 1;
            true
        } else {
            false
        }
    }

    /// Return a permit to the pool.
    pub fn release(&mut self)
        requires
            old(self).wf(),
            old(self).acquired > 0,
        ensures
            final(self).wf(),
            final(self).capacity == old(self).capacity,
            final(self).acquired == old(self).acquired - 1,
    {
        self.acquired = self.acquired - 1;
    }

    pub fn held(&self) -> (r: usize)
        ensures
            r == self.acquired,
    {
        self.acquired
    }
}

/// Concurrency invariant: in every well-formed pool state, no more than
/// `capacity` permits are held simultaneously.
pub proof fn lemma_permit_bound(p: &PermitPool)
    requires
        p.wf(),
    ensures
        p.acquired <= p.capacity,
{
}

} // verus!
