//! Lease accounting of the pooled connection provider: a bounded pool
//! of fixed capacity issues at most that many leases at once.  An
//! `acquire` beyond capacity suspends the calling task; the decision of
//! whether a call proceeds or waits is modelled here, while the waiting
//! itself happens in the unverified runtime around the library.

use vstd::prelude::*;

use crate::common::POOL_SIZE;

verus! {

/// What the pool decides for one `acquire` call.
#[derive(Debug, Clone, Copy, PartialEq, Eq, Structural)]
pub enum AcquireStep {
    /// A lease is free: the call proceeds and succeeds.
    Granted,
    /// Every lease is out: the call suspends until one is released.
    MustWait,
}

/// The lease accounting of a bounded pool: how many leases exist and
/// how many are currently issued.
pub struct PoolState {
    pub capacity: usize,
    pub issued: usize,
}

impl PoolState {
    /// The accounting is consistent: never more leases out than exist.
    pub open spec fn wf(self) -> bool {
        self.issued <= self.capacity
    }

    /// The decision for one `acquire`: grant a lease while one is
    /// free, else the caller must wait.
    pub open spec fn spec_acquire(self) -> (PoolState, AcquireStep) {
        if self.issued < self.capacity {
            (PoolState { capacity: self.capacity, issued: (self.issued + 1) as usize },
            AcquireStep::Granted)
        } else {
            (self, AcquireStep::MustWait)
        }
    }

    /// One lease returned to the pool.
    pub open spec fn spec_release(self) -> PoolState {
        PoolState { capacity: self.capacity, issued: (self.issued - 1) as usize }
    }

    /// A pool constructed once with a fixed capacity, every lease free.
    pub fn new(capacity: usize) -> (r: PoolState)
        ensures
            r.wf(),
            r.capacity == capacity,
            r.issued == 0,
    {
        PoolState { capacity, issued: 0 }
    }

    /// Decides one `acquire` call.
    pub fn acquire(&mut self) -> (r: AcquireStep)
        requires
            old(self).wf(),
        ensures
            final(self).wf(),
            (*final(self), r) == old(self).spec_acquire(),
    {
        if self.issued < self.capacity {
            self.issued = self.issued + 1;
            AcquireStep::Granted
        } else {
            AcquireStep::MustWait
        }
    }

    /// Records that a lease was released (implicitly, on drop).
    pub fn release(&mut self)
        requires
            old(self).wf(),
            old(self).issued > 0,
        ensures
            final(self).wf(),
            *final(self) == old(self).spec_release(),
    {
        self.issued = self.issued - 1;
    }
}

/// Law: against the fixed pool capacity of three, three concurrent
/// `acquire` calls are granted, the fourth must wait, and once one of
/// the first three releases its lease the retried fourth call is
/// granted and proceeds.
pub proof fn lemma_fourth_acquire_waits()
    ensures
        ({
            let p0 = PoolState { capacity: POOL_SIZE as usize, issued: 0 };
            let s1 = p0.spec_acquire();
            let s2 = s1.0.spec_acquire();
            let s3 = s2.0.spec_acquire();
            let s4 = s3.0.spec_acquire();
            let s5 = s4.0.spec_release().spec_acquire();
            s1.1 == AcquireStep::Granted && s2.1 == AcquireStep::Granted && s3.1
                == AcquireStep::Granted && s4.1 == AcquireStep::MustWait && s4.0 == s3.0 && s5.1
                == AcquireStep::Granted
        }),
{
}

} // verus!
