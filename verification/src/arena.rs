//! Fixed-capacity, bump-allocated record store.
//!
//! Slots are issued in append order and never released individually; the
//! only reclamation point is a full reset, performed between capture
//! sessions while no consumer is active. Exhaustion is an ordinary,
//! expected outcome, reported as an absent slot rather than a fault.

use vstd::prelude::*;

verus! {

/// A byte region of fixed capacity that allocates slots in append order
/// with no per-slot release.
pub struct Arena {
    capacity: usize,
    used: usize,
}

impl Arena {
    /// Bytes the arena can hold in total.
    pub closed spec fn spec_capacity(self) -> int {
        self.capacity as int
    }

    /// Bytes issued so far.
    pub closed spec fn spec_used(self) -> int {
        self.used as int
    }

    /// The arena never issues more bytes than its capacity, and the
    /// capacity is a machine-addressable size.
    pub open spec fn wf(self) -> bool {
        0 <= self.spec_used() <= self.spec_capacity() <= usize::MAX
    }

    /// Create an arena of `capacity` bytes with no slots issued.
    pub fn new(capacity: usize) -> (a: Arena)
        ensures
            a.wf(),
            a.spec_capacity() == capacity,
            a.spec_used() == 0,
    {
        Arena { capacity, used: 0 }
    }

    /// Current capacity in bytes.
    pub fn capacity(&self) -> (c: usize)
        ensures
            c == self.spec_capacity(),
    {
        self.capacity
    }

    /// Bytes issued so far.
    pub fn used(&self) -> (u: usize)
        ensures
            u == self.spec_used(),
    {
        self.used
    }

    /// Bytes still available.
    pub fn remaining(&self) -> (r: usize)
        requires
            self.wf(),
        ensures
            r == self.spec_capacity() - self.spec_used(),
    {
        self.capacity - self.used
    }

    /// Allocate a slot of `size` bytes, returning its offset in append
    /// order, or nothing when the remaining capacity is insufficient.
    /// Exhaustion leaves the arena unchanged.
    pub fn allocate(&mut self, size: usize) -> (slot: Option<usize>)
        requires
            old(self).wf(),
        ensures
            final(self).wf(),
            final(self).spec_capacity() == old(self).spec_capacity(),
            old(self).spec_used() + size <= old(self).spec_capacity() ==> {
                &&& slot == Some(old(self).spec_used() as usize)
                &&& final(self).spec_used() == old(self).spec_used() + size
            },
            old(self).spec_used() + size > old(self).spec_capacity() ==> {
                &&& slot is None
                &&& final(self).spec_used() == old(self).spec_used()
            },
    {
        if size <= self.capacity - self.used {
            let offset = self.used;
            self.used = self.used + size;
            Some(offset)
        } else {
            None
        }
    }

    /// Release every issued slot at once. Performed only between capture
    /// sessions, so no outstanding record can be observed across a reset.
    pub fn reset(&mut self)
        ensures
            final(self).wf(),
            final(self).spec_capacity() == old(self).spec_capacity(),
            final(self).spec_used() == 0,
    {
        self.used = 0;
    }
}

} // verus!
