use vstd::prelude::*;

verus! {

/// The status of an event at the moment of a query: a point-in-time snapshot,
/// never shared across threads.
///
/// The two flags use the wire encoding of the boundary: `1` for set, `0` for
/// clear.
#[derive(Debug, Clone, Copy, PartialEq, Eq, Structural)]
pub struct EventStatus {
    /// `1` when the event is manual-reset, `0` when it is auto-reset.
    pub manual: u32,
    /// `1` when the event is currently signaled.
    pub signaled: u32,
}

impl EventStatus {
    /// Well-formed: both flags are genuine booleans on the wire.
    pub open spec fn wf(self) -> bool {
        self.manual <= 1 && self.signaled <= 1
    }

    /// True when the event is manual-reset.
    pub open spec fn is_manual(self) -> bool {
        self.manual == 1
    }

    /// True when the event is currently signaled.
    pub open spec fn is_signaled(self) -> bool {
        self.signaled == 1
    }

    /// Encodes the initial state of a fresh event: the payload of a create
    /// request, and equally the state the created event starts in.
    pub fn new(manual: bool, signaled: bool) -> (r: EventStatus)
        ensures
            r.is_manual() == manual,
            r.is_signaled() == signaled,
            r.wf(),
    {
        EventStatus {
            manual: if manual { 1 } else { 0 },
            signaled: if signaled { 1 } else { 0 },
        }
    }

    /// Decodes the answer of a set, reset or pulse request: the boundary
    /// writes back the previous signaled state, any non-zero value meaning
    /// the event was signaled.
    pub fn decode_previous(raw: u32) -> (r: bool)
        ensures
            r == (raw != 0),
    {
        raw != 0
    }

    /// Returns true if the event is a manual-reset event.
    pub fn manual_reset(&self) -> (r: bool)
        ensures
            r == self.is_manual(),
    {
        self.manual == 1
    }

    /// Returns true if the event is currently signaled.
    pub fn signaled(&self) -> (r: bool)
        ensures
            r == self.is_signaled(),
    {
        self.signaled == 1
    }

    /// State after a set-event request, with the previous signaled flag.
    pub open spec fn spec_signal(self) -> (EventStatus, bool) {
        (EventStatus { manual: self.manual, signaled: 1 }, self.is_signaled())
    }

    /// State after a reset-event request, with the previous signaled flag.
    pub open spec fn spec_reset(self) -> (EventStatus, bool) {
        (EventStatus { manual: self.manual, signaled: 0 }, self.is_signaled())
    }

    /// State after a pulse-event request, with the previous signaled flag.
    /// The set and the clear happen in one atomic step, so no observer ever
    /// reads the event as signaled on account of a pulse.
    pub open spec fn spec_pulse(self) -> (EventStatus, bool) {
        (EventStatus { manual: self.manual, signaled: 0 }, self.is_signaled())
    }

    /// State after the event satisfies one wait: a manual-reset event stays
    /// signaled for every further waiter, an auto-reset event clears for the
    /// one waiter it woke.
    pub open spec fn spec_acquire(self) -> EventStatus {
        if self.is_manual() {
            self
        } else {
            EventStatus { manual: self.manual, signaled: 0 }
        }
    }

    /// An event satisfies a wait exactly when it is signaled.
    pub open spec fn spec_available(self) -> bool {
        self.is_signaled()
    }

    /// The boundary contract of a set-event request: the event becomes
    /// signaled, the reset discipline is untouched, and the previous signaled
    /// flag is handed back.
    pub fn signal(&self) -> (r: (EventStatus, bool))
        ensures
            r == self.spec_signal(),
            r.0.is_signaled(),
            r.0.manual == self.manual,
            r.1 == self.is_signaled(),
            self.wf() ==> r.0.wf(),
    {
        (EventStatus { manual: self.manual, signaled: 1 }, self.signaled == 1)
    }

    /// The boundary contract of a reset-event request: the event becomes
    /// clear, and the previous signaled flag is handed back. On an already
    /// clear event this is a no-op.
    pub fn reset(&self) -> (r: (EventStatus, bool))
        ensures
            r == self.spec_reset(),
            !r.0.is_signaled(),
            r.0.manual == self.manual,
            r.1 == self.is_signaled(),
            self.wf() ==> r.0.wf(),
    {
        (EventStatus { manual: self.manual, signaled: 0 }, self.signaled == 1)
    }

    /// The boundary contract of a pulse-event request: the event is set and
    /// cleared in one atomic step, so it ends clear, and the previous signaled
    /// flag is handed back.
    pub fn pulse(&self) -> (r: (EventStatus, bool))
        ensures
            r == self.spec_pulse(),
            !r.0.is_signaled(),
            r.0.manual == self.manual,
            r.1 == self.is_signaled(),
            self.wf() ==> r.0.wf(),
    {
        (EventStatus { manual: self.manual, signaled: 0 }, self.signaled == 1)
    }

    /// The boundary contract of a satisfied wait on this event: a manual-reset
    /// event is left as it was, an auto-reset event is consumed.
    pub fn acquire(&self) -> (r: EventStatus)
        requires
            self.spec_available(),
        ensures
            r == self.spec_acquire(),
            r.is_manual() == self.is_manual(),
            self.is_manual() ==> r == *self,
            !self.is_manual() ==> !r.is_signaled(),
            self.wf() ==> r.wf(),
    {
        if self.manual == 1 {
            *self
        } else {
            EventStatus { manual: self.manual, signaled: 0 }
        }
    }
}

impl Default for EventStatus {
    /// An auto-reset, clear event: the all-zero wire payload.
    fn default() -> (r: EventStatus)
        ensures
            r.manual == 0,
            r.signaled == 0,
            r.wf(),
    {
        EventStatus { manual: 0, signaled: 0 }
    }
}

/// Law: on a manual-reset event, a signal leaves the event observed as
/// signaled, a reset leaves it observed as clear, and a pulse also leaves it
/// observed as clear, since the set and the clear of a pulse form one atomic
/// step.
pub proof fn lemma_manual_event_observations(e: EventStatus)
    requires
        e.wf(),
        e.is_manual(),
    ensures
        e.spec_signal().0.is_signaled(),
        !e.spec_reset().0.is_signaled(),
        !e.spec_pulse().0.is_signaled(),
{
}

/// A wait-able event handle inside one device connection's namespace: an
/// opaque, copyable identifier whose state lives behind the boundary.
#[derive(Debug, Clone, Copy, Hash, PartialEq, Eq, Structural)]
pub struct Event {
    /// The raw handle value assigned by the boundary.
    pub id: u32,
}

} // verus!
