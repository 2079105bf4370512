use vstd::prelude::*;

use crate::Event;
use crate::EventSources;
use crate::EventStatus;
use crate::MutexStatus;
use crate::NtSyncFlags;
use crate::OwnerId;
use crate::SemaphoreStatus;
use crate::cold_path;
use crate::error::Error;

verus! {

/// The alert handle value a wait request carries: the handle of the
/// designated alert event, or 0 when the call has no alert.
pub open spec fn alert_handle(alert: Option<Event>) -> u32 {
    match alert {
        Some(e) => e.id,
        None => 0,
    }
}

/// The owner token a wait request carries: the supplied token, or the
/// reserved 0 when the call names no owner.
pub open spec fn owner_token(owner: Option<OwnerId>) -> u32 {
    match owner {
        Some(o) => o.0,
        None => 0,
    }
}

/// A source clashes with the alert when it is an event whose handle equals a
/// real (non-zero) alert handle: one event may not be a wait target and the
/// cancellation trigger of the same call.
pub open spec fn clashes_with_alert(s: EventSources, alert_id: u32) -> bool {
    alert_id != 0 && (s matches EventSources::Event(e) && e.id == alert_id)
}

/// Whether any source of the collection clashes with the alert.
pub open spec fn has_alert_clash(sources: Seq<EventSources>, alert_id: u32) -> bool {
    exists|i: int| 0 <= i < sources.len() && clashes_with_alert(sources[i], alert_id)
}

/// Whether the source is a mutex.
pub open spec fn is_mutex_source(s: EventSources) -> bool {
    s is Mutex
}

/// Whether the collection holds any mutex, which obliges the call to name a
/// non-zero owner.
pub open spec fn contains_mutex(sources: Seq<EventSources>) -> bool {
    exists|i: int| 0 <= i < sources.len() && is_mutex_source(sources[i])
}

/// The collection with every repeated member dropped, keeping the first
/// occurrence of each and the order of first occurrences.
pub open spec fn dedup(sources: Seq<EventSources>) -> Seq<EventSources>
    decreases sources.len(),
{
    if sources.len() == 0 {
        Seq::empty()
    } else {
        let rest = dedup(sources.drop_last());
        if rest.contains(sources.last()) {
            rest
        } else {
            rest.push(sources.last())
        }
    }
}

/// The flat list of raw handle values of the given sources, widened to the
/// width of the wire.
pub open spec fn handles_of(sources: Seq<EventSources>) -> Seq<u64> {
    sources.map(|i: int, s: EventSources| s.spec_handle() as u64)
}

/// Law: the flattened collection is membership-unique: after deduplication no
/// member appears twice, so the wait request is a genuine set.
pub proof fn lemma_dedup_unique(sources: Seq<EventSources>)
    ensures
        forall|i: int, j: int|
            0 <= i < j < dedup(sources).len() ==> dedup(sources)[i] != dedup(sources)[j],
    decreases sources.len(),
{
    if sources.len() > 0 {
        lemma_dedup_unique(sources.drop_last());
        let rest = dedup(sources.drop_last());
        let whole = dedup(sources);
        assert forall|i: int, j: int| 0 <= i < j < whole.len() implies whole[i] != whole[j] by {
            if rest.contains(sources.last()) {
                assert(whole[i] == rest[i]);
                assert(whole[j] == rest[j]);
            } else if j < rest.len() {
                assert(whole[i] == rest[i]);
                assert(whole[j] == rest[j]);
            } else {
                assert(whole[i] == rest[i]);
                assert(whole[j] == sources.last());
                if rest[i] == sources.last() {
                    assert(rest.contains(sources.last()));
                }
            }
        }
    }
}

/// Law: deduplication changes no membership: a source stands in the flattened
/// collection exactly when it stands among the given sources.
pub proof fn lemma_dedup_membership(sources: Seq<EventSources>, x: EventSources)
    ensures
        dedup(sources).contains(x) <==> sources.contains(x),
    decreases sources.len(),
{
    if sources.len() > 0 {
        lemma_dedup_membership(sources.drop_last(), x);
        let rest = dedup(sources.drop_last());
        let whole = dedup(sources);
        if sources.contains(x) {
            let k = choose|k: int| 0 <= k < sources.len() && sources[k] == x;
            if k < sources.len() - 1 {
                assert(sources.drop_last()[k] == x);
                assert(sources.drop_last().contains(x));
            } else {
                assert(sources.last() == x);
                if rest.contains(sources.last()) {
                    assert(whole.contains(x));
                } else {
                    assert(whole.last() == x);
                    assert(whole.contains(x));
                }
            }
            if rest.contains(x) {
                let m = choose|m: int| 0 <= m < rest.len() && rest[m] == x;
                assert(whole[m] == rest[m]);
                assert(whole.contains(x));
            }
        }
        if whole.contains(x) {
            let k = choose|k: int| 0 <= k < whole.len() && whole[k] == x;
            if k < rest.len() {
                assert(rest[k] == x);
                assert(rest.contains(x));
                assert(sources.drop_last().contains(x));
                let m = choose|m: int| 0 <= m < sources.drop_last().len()
                    && sources.drop_last()[m] == x;
                assert(sources[m] == x);
                assert(sources.contains(x));
            } else {
                assert(whole[k] == sources.last());
                assert(sources[sources.len() - 1] == x);
                assert(sources.contains(x));
            }
        }
    }
}

/// A validated, flattened wait request: everything the boundary needs for a
/// wait-for-all or wait-for-any call, built locally and fail-closed before any
/// kernel interaction.
#[derive(Debug, Clone)]
pub struct WaitArgs {
    /// The timeout, in the unit and against the clock the boundary expects.
    pub timeout: u64,
    /// The flat, order-stable, duplicate-free list of raw handle values.
    pub objs: Vec<u64>,
    /// The resolved owner token; 0 when the call names no owner.
    pub owner: u32,
    /// The designated alert handle; 0 when the call has no alert.
    pub alert: u32,
    /// The flag bits of the request.
    pub flags: u32,
}

impl WaitArgs {
    /// Assembles a wait request from an unordered collection of mixed-kind
    /// sources, an optional alert event, an optional owner token and the flag
    /// bits, validating in order:
    ///
    /// 1. no event of the collection may equal the alert, else the request is
    ///    rejected with [`Error::DuplicateEvent`];
    /// 2. if any mutex is present, a non-zero owner must be named, else the
    ///    request is rejected with [`Error::InvalidValue`].
    ///
    /// Repeated members are dropped, keeping first occurrences in order, so
    /// the flattened list is membership-unique. All validation is local: no
    /// kernel state is touched and failure leaves no partial effect.
    #[verifier::loop_isolation(false)]
    pub fn new(
        timeout: u64,
        sources: &Vec<EventSources>,
        alert: Option<Event>,
        owner: Option<OwnerId>,
        flags: NtSyncFlags,
    ) -> (r: Result<WaitArgs, Error>)
        ensures
            r == Err::<WaitArgs, Error>(Error::DuplicateEvent) <==> has_alert_clash(
                sources@,
                alert_handle(alert),
            ),
            !has_alert_clash(sources@, alert_handle(alert)) ==> (r == Err::<WaitArgs, Error>(
                Error::InvalidValue,
            ) <==> (contains_mutex(sources@) && owner_token(owner) == 0)),
            r is Ok <==> (!has_alert_clash(sources@, alert_handle(alert)) && !(contains_mutex(
                sources@,
            ) && owner_token(owner) == 0)),
            r matches Ok(a) ==> a.timeout == timeout && a.objs@ == handles_of(dedup(sources@))
                && a.owner == owner_token(owner) && a.alert == alert_handle(alert) && a.flags
                == flags.bits,
    {
        let alert_id: u32 = match alert {
            Some(e) => e.id,
            None => 0,
        };
        let mut i: usize = 0;
        while i < sources.len()
            invariant
                i <= sources.len(),
                forall|j: int| 0 <= j < i as int ==> !clashes_with_alert(sources@[j], alert_id),
            decreases sources.len() - i,
        {
            match sources[i] {
                EventSources::Event(e) => {
                    if alert_id != 0 && e.id == alert_id {
                        cold_path();
                        proof {
                            assert(clashes_with_alert(sources@[i as int], alert_id));
                        }
                        return Err(Error::DuplicateEvent);
                    }
                },
                _ => {},
            }
            i += 1;
        }
        let owner_val: u32 = match owner {
            Some(o) => o.0,
            None => 0,
        };
        if owner_val == 0 {
            let mut i: usize = 0;
            while i < sources.len()
                invariant
                    i <= sources.len(),
                    forall|j: int| 0 <= j < i as int ==> !is_mutex_source(sources@[j]),
                decreases sources.len() - i,
            {
                match sources[i] {
                    EventSources::Mutex(_) => {
                        cold_path();
                        proof {
                            assert(is_mutex_source(sources@[i as int]));
                        }
                        return Err(Error::InvalidValue);
                    },
                    _ => {},
                }
                i += 1;
            }
        }
        let mut kept: Vec<EventSources> = Vec::new();
        let mut objs: Vec<u64> = Vec::new();
        let mut i: usize = 0;
        while i < sources.len()
            invariant
                i <= sources.len(),
                kept@ == dedup(sources@.take(i as int)),
                objs@ == handles_of(kept@),
            decreases sources.len() - i,
        {
            let s = sources[i];
            if !sources_contain(&kept, s) {
                kept.push(s);
                objs.push(s.handle() as u64);
            }
            proof {
                assert(sources@.take(i as int + 1).drop_last() =~= sources@.take(i as int));
                assert(sources@.take(i as int + 1).last() == sources@[i as int]);
                assert(objs@ =~= handles_of(kept@));
            }
            i += 1;
        }
        proof {
            assert(sources@.take(sources@.len() as int) =~= sources@);
        }
        Ok(WaitArgs { timeout, objs, owner: owner_val, alert: alert_id, flags: flags.bits })
    }
}

/// Whether the collection already holds this source.
fn sources_contain(v: &Vec<EventSources>, s: EventSources) -> (r: bool)
    ensures
        r == v@.contains(s),
{
    let mut i: usize = 0;
    while i < v.len()
        invariant
            i <= v.len(),
            forall|j: int| 0 <= j < i as int ==> v@[j] != s,
        decreases v.len() - i,
    {
        if v[i] == s {
            return true;
        }
        i += 1;
    }
    false
}

/// The state of one wait source as the boundary tracks it: the model over
/// which the satisfaction semantics of the two wait disciplines are stated.
#[derive(Debug, Clone, Copy, PartialEq, Eq, Structural)]
pub enum SourceState {
    /// An ownership-tracked mutex.
    Mutex(MutexStatus),
    /// A counting semaphore.
    Semaphore(SemaphoreStatus),
    /// A latched event.
    Event(EventStatus),
}

impl SourceState {
    /// Well-formed: the wrapped state keeps its kind's invariant.
    pub open spec fn wf(self) -> bool {
        match self {
            SourceState::Mutex(m) => m.wf(),
            SourceState::Semaphore(s) => s.wf(),
            SourceState::Event(e) => e.wf(),
        }
    }

    /// Room for one more acquisition: a mutex must not sit at the largest
    /// representable depth; the other kinds always have room.
    pub open spec fn spec_headroom(self) -> bool {
        match self {
            SourceState::Mutex(m) => m.count < u32::MAX,
            SourceState::Semaphore(_) => true,
            SourceState::Event(_) => true,
        }
    }

    /// Whether this source would satisfy a wait issued by `who`: a mutex when
    /// unowned or already held by `who`, a semaphore when its counter is
    /// positive, an event when signaled.
    pub open spec fn spec_available_for(self, who: OwnerId) -> bool {
        match self {
            SourceState::Mutex(m) => m.spec_available_for(who),
            SourceState::Semaphore(s) => s.spec_available(),
            SourceState::Event(e) => e.spec_available(),
        }
    }

    /// State after this source satisfies one wait issued by `who`: the mutex
    /// is handed to `who` with its depth stepped up, the semaphore counter
    /// shrinks by one, a manual event stays signaled and an auto event clears.
    pub open spec fn spec_acquire_for(self, who: OwnerId) -> SourceState {
        match self {
            SourceState::Mutex(m) => SourceState::Mutex(m.spec_acquire(who)),
            SourceState::Semaphore(s) => SourceState::Semaphore(s.spec_acquire()),
            SourceState::Event(e) => SourceState::Event(e.spec_acquire()),
        }
    }

    /// Whether this source would satisfy a wait issued by `who`.
    pub fn available_for(&self, who: OwnerId) -> (r: bool)
        ensures
            r == self.spec_available_for(who),
    {
        match self {
            SourceState::Mutex(m) => m.available_for(who),
            SourceState::Semaphore(s) => s.count > 0,
            SourceState::Event(e) => e.signaled(),
        }
    }

    /// The boundary contract of one satisfied wait on this source.
    pub fn acquire_for(&self, who: OwnerId) -> (r: SourceState)
        requires
            self.wf(),
            self.spec_headroom(),
            self.spec_available_for(who),
        ensures
            r == self.spec_acquire_for(who),
            r.wf(),
    {
        match self {
            SourceState::Mutex(m) => SourceState::Mutex(m.acquire(who)),
            SourceState::Semaphore(s) => SourceState::Semaphore(s.acquire()),
            SourceState::Event(e) => SourceState::Event(e.acquire()),
        }
    }
}

/// Whether every source of the set would satisfy a wait issued by `who` at
/// once: the satisfaction condition of a wait-for-all call.
pub open spec fn all_available_for(states: Seq<SourceState>, who: OwnerId) -> bool {
    forall|i: int| 0 <= i < states.len() ==> states[i].spec_available_for(who)
}

/// The atomic acquisition step of a satisfied wait-for-all call: when every
/// source is available at once, all of them are acquired together; otherwise
/// none is touched and the wait keeps blocking. There is no partial
/// acquisition.
pub fn acquire_all(states: &Vec<SourceState>, who: OwnerId) -> (r: Option<Vec<SourceState>>)
    requires
        forall|i: int|
            0 <= i < states@.len() ==> states@[i].wf() && states@[i].spec_headroom(),
    ensures
        r is Some <==> all_available_for(states@, who),
        r matches Some(after) ==> after@.len() == states@.len() && forall|i: int|
            0 <= i < states@.len() ==> after@[i] == states@[i].spec_acquire_for(who),
{
    let mut i: usize = 0;
    while i < states.len()
        invariant
            i <= states@.len(),
            forall|j: int| 0 <= j < i as int ==> states@[j].spec_available_for(who),
        decreases states@.len() - i,
    {
        if !states[i].available_for(who) {
            proof {
                assert(!states@[i as int].spec_available_for(who));
            }
            return None;
        }
        i += 1;
    }
    let mut after: Vec<SourceState> = Vec::new();
    let mut i: usize = 0;
    while i < states.len()
        invariant
            i <= states@.len(),
            after@.len() == i,
            forall|j: int| 0 <= j < i as int ==> after@[j] == states@[j].spec_acquire_for(who),
            forall|j: int|
                0 <= j < states@.len() ==> states@[j].wf() && states@[j].spec_headroom(),
            all_available_for(states@, who),
        decreases states@.len() - i,
    {
        after.push(states[i].acquire_for(who));
        i += 1;
    }
    Some(after)
}

/// The acquisition step of a satisfied wait-for-any call: exactly the one
/// source named by `index` is acquired; every other source is untouched.
pub fn acquire_any(states: &Vec<SourceState>, index: usize, who: OwnerId) -> (r: Vec<
    SourceState,
>)
    requires
        index < states@.len(),
        states@[index as int].wf(),
        states@[index as int].spec_headroom(),
        states@[index as int].spec_available_for(who),
    ensures
        r@.len() == states@.len(),
        r@[index as int] == states@[index as int].spec_acquire_for(who),
        forall|j: int| 0 <= j < states@.len() && j != index as int ==> r@[j] == states@[j],
{
    let mut after: Vec<SourceState> = Vec::new();
    let mut i: usize = 0;
    while i < states.len()
        invariant
            i <= states@.len(),
            after@.len() == i,
            index < states@.len(),
            states@[index as int].wf(),
            states@[index as int].spec_headroom(),
            states@[index as int].spec_available_for(who),
            forall|j: int|
                0 <= j < i as int && j != index as int ==> after@[j] == states@[j],
            index < i ==> after@[index as int] == states@[index as int].spec_acquire_for(who),
        decreases states@.len() - i,
    {
        if i == index {
            after.push(states[i].acquire_for(who));
        } else {
            after.push(states[i]);
        }
        i += 1;
    }
    after
}

/// Law: a wait-for-all set holding a mutex that another owner has locked is
/// not satisfiable for `who`, whatever the other sources look like; such a
/// wait can end only through its timeout or its alert.
pub proof fn lemma_wait_all_blocked_by_held_mutex(
    states: Seq<SourceState>,
    k: int,
    m: MutexStatus,
    who: OwnerId,
)
    requires
        0 <= k < states.len(),
        states[k] == SourceState::Mutex(m),
        m.owner.0 != 0,
        m.owner != who,
    ensures
        !all_available_for(states, who),
{
    crate::mutex::lemma_held_mutex_unavailable(m, who);
    assert(!states[k].spec_available_for(who));
}

/// The outcome of a wait-for-all call.
#[derive(Debug, Clone)]
pub struct WaitAllStatus {
    /// True when the alert, not the sources, ended the wait.
    pub alerted: bool,
    /// The sources as they were given, so each acquired resource can be freed.
    pub objects: Vec<EventSources>,
}

impl WaitAllStatus {
    /// Decodes the boundary's answer to a wait-for-all call. The result index
    /// equal to the submitted count is the sentinel that says the alert ended
    /// the wait; the submitted sources are echoed back for later freeing.
    pub fn decode(index: u32, count: u32, objects: Vec<EventSources>) -> (r: WaitAllStatus)
        ensures
            r.alerted == (index == count),
            r.objects == objects,
    {
        WaitAllStatus { alerted: index == count, objects }
    }
}

/// The outcome of a wait-for-any call.
#[derive(Debug, Clone)]
pub struct WaitAnyStatus {
    /// True when the alert, not a source, ended the wait.
    pub alerted: bool,
    /// The sources as they were given.
    pub objects: Vec<EventSources>,
    /// The 0-based position of the satisfied source in the submitted list;
    /// equal to the submitted count when the alert ended the wait.
    pub index: u32,
}

impl WaitAnyStatus {
    /// Decodes the boundary's answer to a wait-for-any call. The result index
    /// names the satisfied source; an index equal to the submitted count is
    /// the sentinel that says the alert ended the wait.
    pub fn decode(index: u32, count: u32, objects: Vec<EventSources>) -> (r: WaitAnyStatus)
        ensures
            r.alerted == (index == count),
            r.index == index,
            r.objects == objects,
    {
        WaitAnyStatus { alerted: index == count, objects, index }
    }
}

} // verus!
