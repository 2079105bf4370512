use vstd::prelude::*;

use crate::OwnerId;
use crate::error::Error;

verus! {

/// The status of a mutex at the moment of a query: a point-in-time snapshot,
/// never shared across threads.
#[derive(Debug, Clone, Copy, PartialEq, Eq, Structural)]
pub struct MutexStatus {
    /// The token of the current holder; zero when the mutex is unowned.
    pub owner: OwnerId,
    /// How many times the current holder has acquired the mutex without an
    /// intervening unlock.
    pub count: u32,
}

impl MutexStatus {
    /// Well-formed: the mutex has a positive depth exactly when it has a
    /// holder.
    pub open spec fn wf(self) -> bool {
        (self.count > 0) <==> (self.owner.0 != 0)
    }

    /// The current holder of the mutex, if any.
    pub open spec fn spec_owner(self) -> Option<OwnerId> {
        if self.owner.0 == 0 {
            None
        } else {
            Some(self.owner)
        }
    }

    /// The current owner of the mutex.
    pub fn owner(&self) -> (r: Option<OwnerId>)
        ensures
            r == self.spec_owner(),
            r is None <==> self.owner.0 == 0,
    {
        if self.owner.0 == 0 {
            None
        } else {
            Some(self.owner)
        }
    }

    /// How many times the current owner has locked the mutex, if it is held.
    pub fn depth(&self) -> (r: Option<u32>)
        ensures
            r == if self.count != 0 {
                Some(self.count)
            } else {
                None::<u32>
            },
    {
        if self.count != 0 {
            Some(self.count)
        } else {
            None
        }
    }

    /// The boundary contract of an unlock request. A zero token is invalid;
    /// any other token that is not the holder is denied; the holder steps the
    /// depth down, fully releasing the mutex when the depth reaches zero.
    pub open spec fn spec_unlock(self, who: OwnerId) -> Result<(MutexStatus, u32), Error> {
        if who.0 == 0 {
            Err(Error::InvalidValue)
        } else if self.owner != who {
            Err(Error::PermissionDenied)
        } else {
            Ok(
                (
                    MutexStatus {
                        owner: if self.count <= 1 {
                            OwnerId(0)
                        } else {
                            who
                        },
                        count: (self.count - 1) as u32,
                    },
                    self.count,
                ),
            )
        }
    }

    /// Unlocks the mutex on behalf of `who`, handing back the new state and
    /// the previous depth. Fails with [`Error::InvalidValue`] for the reserved
    /// zero token and with [`Error::PermissionDenied`] for every token that is
    /// not the current holder.
    pub fn unlock(&self, who: OwnerId) -> (r: Result<(MutexStatus, u32), Error>)
        requires
            self.wf(),
        ensures
            r == self.spec_unlock(who),
            r matches Ok(p) ==> p.0.wf() && p.1 == self.count && p.0.count == self.count - 1,
    {
        if who.0 == 0 {
            Err(Error::InvalidValue)
        } else if self.owner.0 != who.0 {
            Err(Error::PermissionDenied)
        } else {
            let next_count = self.count - 1;
            Ok(
                (
                    MutexStatus {
                        owner: if next_count == 0 {
                            OwnerId(0)
                        } else {
                            who
                        },
                        count: next_count,
                    },
                    self.count,
                ),
            )
        }
    }

    /// State after a kill request: the mutex is forcibly released regardless
    /// of the current holder.
    pub open spec fn spec_kill(self) -> MutexStatus {
        MutexStatus { owner: OwnerId(0), count: 0 }
    }

    /// The boundary contract of a kill request naming `who` as the owner that
    /// died: the mutex ends unowned with depth zero, whoever held it; the
    /// boundary surfaces the death to the next successful waiter as
    /// [`Error::OwnerDead`].
    pub fn kill(&self, who: OwnerId) -> (r: MutexStatus)
        ensures
            r == self.spec_kill(),
            r.owner.0 == 0,
            r.count == 0,
            r.wf(),
    {
        let _ = who;
        MutexStatus { owner: OwnerId(0), count: 0 }
    }

    /// A mutex satisfies a wait for `who` exactly when it is unowned or
    /// already held by `who`; the reserved zero token never qualifies.
    pub open spec fn spec_available_for(self, who: OwnerId) -> bool {
        who.0 != 0 && (self.owner.0 == 0 || self.owner == who)
    }

    /// Whether a wait issued by `who` would be satisfied by this mutex.
    pub fn available_for(&self, who: OwnerId) -> (r: bool)
        ensures
            r == self.spec_available_for(who),
    {
        who.0 != 0 && (self.owner.0 == 0 || self.owner.0 == who.0)
    }

    /// State after the mutex satisfies one wait for `who`: the ownership is
    /// handed to `who`, with the depth stepping up when `who` already held it.
    pub open spec fn spec_acquire(self, who: OwnerId) -> MutexStatus {
        MutexStatus { owner: who, count: (self.count + 1) as u32 }
    }

    /// The boundary contract of a satisfied wait on this mutex: ownership is
    /// handed to `who`, recursively when `who` is already the holder.
    pub fn acquire(&self, who: OwnerId) -> (r: MutexStatus)
        requires
            self.wf(),
            self.spec_available_for(who),
            self.count < u32::MAX,
        ensures
            r == self.spec_acquire(who),
            r.owner == who,
            r.count == self.count + 1,
            r.wf(),
    {
        MutexStatus { owner: who, count: self.count + 1 }
    }
}

impl Default for MutexStatus {
    /// An unowned mutex with depth zero: the state a fresh mutex starts in,
    /// and equally the wire payload of a create-mutex request.
    fn default() -> (r: MutexStatus)
        ensures
            r.owner.0 == 0,
            r.count == 0,
            r.wf(),
    {
        MutexStatus { owner: OwnerId(0), count: 0 }
    }
}

/// Law: unlocking a mutex that has never been locked is denied for every
/// owner token other than the reserved zero, which is rejected as invalid
/// before ownership is even compared.
pub proof fn lemma_unlock_never_locked(m: MutexStatus, who: OwnerId)
    requires
        m.wf(),
        m.owner.0 == 0,
        who.0 != 0,
    ensures
        m.spec_unlock(who) == Err::<(MutexStatus, u32), Error>(Error::PermissionDenied),
{
}

/// Law: a mutex held by one owner never satisfies a wait issued with a
/// different token, so such a wait can end only through its timeout or its
/// alert.
pub proof fn lemma_held_mutex_unavailable(m: MutexStatus, who: OwnerId)
    requires
        m.owner.0 != 0,
        m.owner != who,
    ensures
        !m.spec_available_for(who),
{
}

/// A wait-able mutex handle inside one device connection's namespace: an
/// opaque, copyable identifier whose ownership state lives behind the
/// boundary. On its own it can only be unlocked; locking happens through the
/// wait calls.
#[derive(Debug, Clone, Copy, Hash, PartialEq, Eq, Structural)]
pub struct Mutex {
    /// The raw handle value assigned by the boundary.
    pub id: u32,
}

} // verus!
