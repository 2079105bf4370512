//! Userspace abstraction over a kernel multi-object synchronization facility:
//! wait-able events, counting semaphores and ownership-tracked mutexes, plus a
//! protocol for blocking on a mixed set of such objects until one or all of
//! them become available.
//!
//! This crate holds the verified object model and wait-multiplexing protocol:
//! the handle kinds and their state transitions, the rules for assembling a
//! validated wait request, the decoding of wait results, and the mapping from
//! raw boundary signals to the domain error taxonomy. The blocking calls to
//! the device itself are issued by an unverified shell around this crate,
//! which hands plain values in and out.

use vstd::prelude::*;

mod error;
mod event;
mod mutex;
mod semaphore;
mod wait;

pub use crate::error::Error;
pub use crate::error::RAW_BADF;
pub use crate::error::RAW_INTR;
pub use crate::error::RAW_INVAL;
pub use crate::error::RAW_IO;
pub use crate::error::RAW_OVERFLOW;
pub use crate::error::RAW_OWNERDEAD;
pub use crate::error::RAW_PERM;
pub use crate::error::RAW_TIMEDOUT;
pub use crate::error::spec_from_errno;
pub use crate::event::Event;
pub use crate::event::EventStatus;
pub use crate::event::lemma_manual_event_observations;
pub use crate::mutex::Mutex;
pub use crate::mutex::MutexStatus;
pub use crate::mutex::lemma_held_mutex_unavailable;
pub use crate::mutex::lemma_unlock_never_locked;
pub use crate::semaphore::Semaphore;
pub use crate::semaphore::SemaphoreArgs;
pub use crate::semaphore::SemaphoreStatus;
pub use crate::semaphore::lemma_release_release;
pub use crate::wait::SourceState;
pub use crate::wait::WaitAllStatus;
pub use crate::wait::WaitAnyStatus;
pub use crate::wait::WaitArgs;
pub use crate::wait::acquire_all;
pub use crate::wait::acquire_any;
pub use crate::wait::alert_handle;
pub use crate::wait::all_available_for;
pub use crate::wait::clashes_with_alert;
pub use crate::wait::contains_mutex;
pub use crate::wait::dedup;
pub use crate::wait::handles_of;
pub use crate::wait::has_alert_clash;
pub use crate::wait::is_mutex_source;
pub use crate::wait::lemma_dedup_membership;
pub use crate::wait::lemma_dedup_unique;
pub use crate::wait::lemma_wait_all_blocked_by_held_mutex;
pub use crate::wait::owner_token;

verus! {

/// Flag bit selecting the wall clock instead of the monotonic clock as the
/// timeout basis of a wait request.
pub const WAIT_REALTIME: u32 = 0x1;

/// An identifier for the part of the program that needs protection against
/// parallel access. Zero is reserved to mean "no owner"; every other value is
/// an opaque token chosen by the caller and only ever compared for equality.
#[derive(Debug, Clone, Copy, Hash, PartialEq, Eq, Structural)]
pub struct OwnerId(pub u32);

impl OwnerId {
    /// Wraps a caller-chosen token.
    pub fn new(id: u32) -> (r: OwnerId)
        ensures
            r.0 == id,
    {
        OwnerId(id)
    }

    /// Draws a random owner token, nudged away from the reserved zero value.
    pub fn random() -> (r: OwnerId)
        ensures
            r.0 >= 1,
    {
        let raw = random_u32();
        if raw == 0 {
            OwnerId(1)
        } else {
            OwnerId(raw)
        }
    }
}

impl Default for OwnerId {
    /// The reserved "no owner" token.
    fn default() -> (r: OwnerId)
        ensures
            r.0 == 0,
    {
        OwnerId(0)
    }
}

/// Relies on rand::random: draws a value from the thread-local generator.
/// Nothing is promised of the result.
#[verifier::external_body]
fn random_u32() -> u32 {
    rand::random::<u32>()
}

/// The flag bits of a wait request.
#[derive(Debug, Clone, Copy, PartialEq, Eq, Structural)]
pub struct NtSyncFlags {
    /// The raw bit set handed to the boundary.
    pub bits: u32,
}

impl NtSyncFlags {
    /// No flags: timeouts are measured against the monotonic clock.
    pub fn empty() -> (r: NtSyncFlags)
        ensures
            r.bits == 0,
    {
        NtSyncFlags { bits: 0 }
    }

    /// Timeouts are measured against the wall clock.
    pub fn realtime() -> (r: NtSyncFlags)
        ensures
            r.bits == WAIT_REALTIME,
    {
        NtSyncFlags { bits: WAIT_REALTIME }
    }
}

impl Default for NtSyncFlags {
    /// Same as [`NtSyncFlags::empty`].
    fn default() -> (r: NtSyncFlags)
        ensures
            r.bits == 0,
    {
        NtSyncFlags { bits: 0 }
    }
}

/// Marks a branch as rarely taken, so the hot path stays first in line for
/// optimization.
#[inline(always)]
pub fn cold_path() {
}

/// The tagged union over the synchronization primitives of this crate, so the
/// different kinds can share one collection and one wait request.
#[derive(Debug, Clone, Copy, Hash, PartialEq, Eq, Structural)]
pub enum EventSources {
    /// The wrapper for [`Mutex`].
    Mutex(Mutex),
    /// The wrapper for [`Semaphore`].
    Semaphore(Semaphore),
    /// The wrapper for [`Event`].
    Event(Event),
}

/// The device request that gives back one acquired unit of a wait source:
/// what an unverified shell must issue to the boundary to perform a
/// [`EventSources::free`].
#[derive(Debug, Clone, Copy, Hash, PartialEq, Eq, Structural)]
pub enum FreeRequest {
    /// Unlock the mutex with the owner token that acquired it.
    Unlock(Mutex, OwnerId),
    /// Release the given amount back to the semaphore.
    Release(Semaphore, u32),
    /// Reset the event.
    Reset(Event),
}

impl EventSources {
    /// The raw handle value of the wrapped primitive.
    pub open spec fn spec_handle(self) -> u32 {
        match self {
            EventSources::Mutex(m) => m.id,
            EventSources::Semaphore(s) => s.id,
            EventSources::Event(e) => e.id,
        }
    }

    /// The raw handle value of the wrapped primitive.
    pub fn handle(&self) -> (h: u32)
        ensures
            h == self.spec_handle(),
    {
        match self {
            EventSources::Mutex(m) => m.id,
            EventSources::Semaphore(s) => s.id,
            EventSources::Event(e) => e.id,
        }
    }

    /// The request that frees the resource this source acquired: a mutex is
    /// unlocked with `owner`, a semaphore is released with an amount of one,
    /// an event is reset.
    pub open spec fn spec_free(self, owner: OwnerId) -> FreeRequest {
        match self {
            EventSources::Mutex(m) => FreeRequest::Unlock(m, owner),
            EventSources::Semaphore(s) => FreeRequest::Release(s, 1),
            EventSources::Event(e) => FreeRequest::Reset(e),
        }
    }

    /// Chooses the request that frees the respective resource after a
    /// satisfied wait: mutexes are unlocked with `owner`, semaphores are
    /// released with an amount of one, events are reset. The caller performs
    /// the request against the boundary.
    pub fn free(&self, owner: OwnerId) -> (r: FreeRequest)
        ensures
            r == self.spec_free(owner),
    {
        match self {
            EventSources::Mutex(m) => FreeRequest::Unlock(*m, owner),
            EventSources::Semaphore(s) => FreeRequest::Release(*s, 1),
            EventSources::Event(e) => FreeRequest::Reset(*e),
        }
    }
}

impl From<Event> for EventSources {
    /// Wraps the event.
    fn from(val: Event) -> (r: EventSources) {
        EventSources::Event(val)
    }
}

impl vstd::std_specs::convert::FromSpecImpl<Event> for EventSources {
    open spec fn obeys_from_spec() -> bool {
        true
    }

    open spec fn from_spec(val: Event) -> EventSources {
        EventSources::Event(val)
    }
}

impl From<Semaphore> for EventSources {
    /// Wraps the semaphore.
    fn from(val: Semaphore) -> (r: EventSources) {
        EventSources::Semaphore(val)
    }
}

impl vstd::std_specs::convert::FromSpecImpl<Semaphore> for EventSources {
    open spec fn obeys_from_spec() -> bool {
        true
    }

    open spec fn from_spec(val: Semaphore) -> EventSources {
        EventSources::Semaphore(val)
    }
}

impl From<Mutex> for EventSources {
    /// Wraps the mutex.
    fn from(val: Mutex) -> (r: EventSources) {
        EventSources::Mutex(val)
    }
}

impl vstd::std_specs::convert::FromSpecImpl<Mutex> for EventSources {
    open spec fn obeys_from_spec() -> bool {
        true
    }

    open spec fn from_spec(val: Mutex) -> EventSources {
        EventSources::Mutex(val)
    }
}

/// The capability shared by all wait-able objects of this crate: each wraps
/// one raw boundary handle and converts into the generic wait source.
pub trait NTSyncObjects: Sized + Clone + Copy {
    /// The snapshot type that a status query of this object returns. It is a
    /// point-in-time copy and must not be shared across threads.
    type Status;

    /// The generic wait source this object converts into.
    spec fn spec_source(self) -> EventSources;

    /// Wraps the object into the generic wait source.
    fn as_source(&self) -> (s: EventSources)
        ensures
            s == self.spec_source(),
    ;

    /// The raw handle value assigned by the boundary.
    fn handle(&self) -> (h: u32)
        ensures
            h == self.spec_source().spec_handle(),
    ;
}

impl NTSyncObjects for Event {
    type Status = EventStatus;

    open spec fn spec_source(self) -> EventSources {
        EventSources::Event(self)
    }

    fn as_source(&self) -> (s: EventSources) {
        EventSources::Event(*self)
    }

    fn handle(&self) -> (h: u32) {
        self.id
    }
}

impl NTSyncObjects for Semaphore {
    type Status = SemaphoreStatus;

    open spec fn spec_source(self) -> EventSources {
        EventSources::Semaphore(self)
    }

    fn as_source(&self) -> (s: EventSources) {
        EventSources::Semaphore(*self)
    }

    fn handle(&self) -> (h: u32) {
        self.id
    }
}

impl NTSyncObjects for Mutex {
    type Status = MutexStatus;

    open spec fn spec_source(self) -> EventSources {
        EventSources::Mutex(self)
    }

    fn as_source(&self) -> (s: EventSources) {
        EventSources::Mutex(*self)
    }

    fn handle(&self) -> (h: u32) {
        self.id
    }
}

} // verus!
