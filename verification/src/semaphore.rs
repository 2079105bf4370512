use vstd::prelude::*;

use crate::error::Error;

verus! {

/// The status of a semaphore at the moment of a query: a point-in-time
/// snapshot, never shared across threads.
#[derive(Debug, Clone, Copy, PartialEq, Eq, Structural)]
pub struct SemaphoreStatus {
    /// The amount that can still be acquired by waiters.
    pub count: u32,
    /// The largest value the counter may ever reach.
    pub max: u32,
}

impl SemaphoreStatus {
    /// Well-formed: the counter stays within its bound and the bound is at
    /// least one.
    pub open spec fn wf(self) -> bool {
        self.count <= self.max && self.max >= 1
    }

    /// Returns the maximum of allocatable resources.
    pub fn max(&self) -> (r: u32)
        ensures
            r == self.max,
    {
        self.max
    }

    /// The boundary contract of a release request: the counter grows by
    /// `amount` and the previous counter is handed back, unless the sum would
    /// exceed the maximum, in which case nothing changes and the request fails
    /// with the overflow error.
    pub open spec fn spec_release(self, amount: u32) -> Result<(SemaphoreStatus, u32), Error> {
        if self.count + amount <= self.max {
            Ok((SemaphoreStatus { count: (self.count + amount) as u32, max: self.max }, self.count))
        } else {
            Err(Error::SemaphoreOverflow)
        }
    }

    /// Releases `amount` back to the semaphore, handing back the new state and
    /// the previous counter. Fails with [`Error::SemaphoreOverflow`], leaving
    /// the state untouched, exactly when the sum would pass the maximum.
    pub fn release(&self, amount: u32) -> (r: Result<(SemaphoreStatus, u32), Error>)
        requires
            self.wf(),
        ensures
            r == self.spec_release(amount),
            r matches Ok(p) ==> p.0.wf() && p.0.max == self.max && p.0.count == self.count + amount
                && p.1 == self.count,
            r is Err <==> self.count + amount > self.max,
            r is Err ==> r == Err::<(SemaphoreStatus, u32), Error>(Error::SemaphoreOverflow),
    {
        if amount <= self.max - self.count {
            Ok((SemaphoreStatus { count: self.count + amount, max: self.max }, self.count))
        } else {
            Err(Error::SemaphoreOverflow)
        }
    }

    /// A semaphore satisfies a wait exactly when its counter is positive.
    pub open spec fn spec_available(self) -> bool {
        self.count > 0
    }

    /// State after the semaphore satisfies one wait: the counter shrinks by
    /// one.
    pub open spec fn spec_acquire(self) -> SemaphoreStatus {
        SemaphoreStatus { count: (self.count - 1) as u32, max: self.max }
    }

    /// The boundary contract of a satisfied wait on this semaphore: one unit
    /// is consumed.
    pub fn acquire(&self) -> (r: SemaphoreStatus)
        requires
            self.spec_available(),
        ensures
            r == self.spec_acquire(),
            r.count == self.count - 1,
            r.max == self.max,
            self.wf() ==> r.wf(),
    {
        SemaphoreStatus { count: self.count - 1, max: self.max }
    }
}

/// Law: from any well-formed state, releasing `a` and then `b` succeeds
/// exactly when `count + a + b` stays within the maximum; when the first
/// release fits and the pair does not, the second call fails with the overflow
/// error and the counter still shows only the first release.
pub proof fn lemma_release_release(s: SemaphoreStatus, a: u32, b: u32)
    requires
        s.wf(),
    ensures
        (s.spec_release(a) matches Ok(p) && p.0.spec_release(b) is Ok) <==> s.count + a + b
            <= s.max,
        s.spec_release(a) matches Ok(p) ==> (s.count + a + b > s.max ==> p.0.spec_release(b)
            == Err::<(SemaphoreStatus, u32), Error>(Error::SemaphoreOverflow) && p.0.count
            == s.count + a),
{
}

/// The wire payload of a create-semaphore request: the initial counter and the
/// maximum.
#[derive(Debug, Clone, Copy, PartialEq, Eq, Structural)]
pub struct SemaphoreArgs {
    /// The counter the fresh semaphore starts with.
    pub count: u32,
    /// The largest value the counter may ever reach.
    pub max: u32,
}

impl SemaphoreArgs {
    /// The payload for a fresh semaphore: the maximum is clamped into
    /// `[1, u32::MAX]` and the counter starts at the maximum.
    pub fn new(maximum: u32) -> (r: SemaphoreArgs)
        ensures
            r.max == if maximum == 0 { 1u32 } else { maximum },
            r.count == r.max,
    {
        let max = if maximum == 0 { 1 } else { maximum };
        SemaphoreArgs { count: max, max }
    }
}

/// A wait-able semaphore handle inside one device connection's namespace: an
/// opaque, copyable identifier whose counter lives behind the boundary.
#[derive(Debug, Clone, Copy, Hash, PartialEq, Eq, Structural)]
pub struct Semaphore {
    /// The raw handle value assigned by the boundary.
    pub id: u32,
}

} // verus!
