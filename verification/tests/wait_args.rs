use ntsync::Error;
use ntsync::Event;
use ntsync::EventSources;
use ntsync::FreeRequest;
use ntsync::Mutex;
use ntsync::NTSyncObjects;
use ntsync::NtSyncFlags;
use ntsync::OwnerId;
use ntsync::Semaphore;
use ntsync::WaitAllStatus;
use ntsync::WaitAnyStatus;
use ntsync::WaitArgs;

fn mixed_sources() -> Vec<EventSources> {
    vec![
        EventSources::Event(Event { id: 4 }),
        EventSources::Semaphore(Semaphore { id: 5 }),
        EventSources::Mutex(Mutex { id: 6 }),
    ]
}

#[test]
fn alert_equal_to_member_event_is_rejected() {
    let sources = mixed_sources();
    let r = WaitArgs::new(100, &sources, Some(Event { id: 4 }), Some(OwnerId::new(1)), NtSyncFlags::empty());
    assert_eq!(r.err(), Some(Error::DuplicateEvent));
}

#[test]
fn alert_equal_to_member_mutex_handle_is_accepted() {
    // Only events clash with the alert; a mutex sharing the handle value does not.
    let sources = vec![EventSources::Mutex(Mutex { id: 9 })];
    let r = WaitArgs::new(100, &sources, Some(Event { id: 9 }), Some(OwnerId::new(1)), NtSyncFlags::empty());
    let args = r.expect("no event clashes with the alert");
    assert_eq!(args.alert, 9);
    assert_eq!(args.objs, vec![9]);
}

#[test]
fn mutex_without_owner_is_rejected() {
    let sources = mixed_sources();
    let none = WaitArgs::new(100, &sources, None, None, NtSyncFlags::empty());
    assert_eq!(none.err(), Some(Error::InvalidValue));

    let zero = WaitArgs::new(100, &sources, None, Some(OwnerId::new(0)), NtSyncFlags::empty());
    assert_eq!(zero.err(), Some(Error::InvalidValue));
}

#[test]
fn duplicate_event_check_precedes_owner_check() {
    // Both construction rules are violated; the alert clash is reported first.
    let sources = mixed_sources();
    let r = WaitArgs::new(100, &sources, Some(Event { id: 4 }), None, NtSyncFlags::empty());
    assert_eq!(r.err(), Some(Error::DuplicateEvent));
}

#[test]
fn events_and_semaphores_need_no_owner() {
    let sources = vec![
        EventSources::Event(Event { id: 4 }),
        EventSources::Semaphore(Semaphore { id: 5 }),
    ];
    let args = WaitArgs::new(100, &sources, None, None, NtSyncFlags::empty())
        .expect("no mutex, so no owner is needed");
    assert_eq!(args.owner, 0);
    assert_eq!(args.objs, vec![4, 5]);
}

#[test]
fn request_fields_carry_the_call_over() {
    let sources = mixed_sources();
    let args = WaitArgs::new(250, &sources, Some(Event { id: 40 }), Some(OwnerId::new(77)), NtSyncFlags::realtime())
        .expect("a valid request");
    assert_eq!(args.timeout, 250);
    assert_eq!(args.objs, vec![4, 5, 6]);
    assert_eq!(args.owner, 77);
    assert_eq!(args.alert, 40);
    assert_eq!(args.flags, ntsync::WAIT_REALTIME);
}

#[test]
fn empty_source_set_builds_an_empty_request() {
    let sources: Vec<EventSources> = Vec::new();
    let args = WaitArgs::new(0, &sources, None, None, NtSyncFlags::default())
        .expect("an empty set is a valid request");
    assert!(args.objs.is_empty());
    assert_eq!(args.owner, 0);
    assert_eq!(args.alert, 0);
    assert_eq!(args.flags, 0);
}

#[test]
fn repeated_members_are_flattened_once_in_order() {
    let sources = vec![
        EventSources::Event(Event { id: 8 }),
        EventSources::Semaphore(Semaphore { id: 5 }),
        EventSources::Event(Event { id: 8 }),
        EventSources::Event(Event { id: 2 }),
        EventSources::Semaphore(Semaphore { id: 5 }),
    ];
    let args = WaitArgs::new(1, &sources, None, None, NtSyncFlags::empty()).expect("valid");
    assert_eq!(args.objs, vec![8, 5, 2]);
}

#[test]
fn same_handle_under_different_kinds_stays_distinct() {
    let sources = vec![
        EventSources::Event(Event { id: 3 }),
        EventSources::Semaphore(Semaphore { id: 3 }),
    ];
    let args = WaitArgs::new(1, &sources, None, None, NtSyncFlags::empty()).expect("valid");
    assert_eq!(args.objs, vec![3, 3]);
}

#[test]
fn unbounded_timeout_passes_through() {
    let sources = vec![EventSources::Event(Event { id: 1 })];
    let args = WaitArgs::new(u64::MAX, &sources, None, None, NtSyncFlags::empty())
        .expect("valid");
    assert_eq!(args.timeout, u64::MAX);
}

#[test]
fn wait_all_result_alerted_iff_index_equals_count() {
    let objects = mixed_sources();
    let alerted = WaitAllStatus::decode(3, 3, objects.clone());
    assert!(alerted.alerted);
    assert_eq!(alerted.objects, objects);

    let satisfied = WaitAllStatus::decode(0, 3, objects.clone());
    assert!(!satisfied.alerted);
    assert_eq!(satisfied.objects, objects);
}

#[test]
fn wait_any_result_reports_the_satisfied_index() {
    let objects = mixed_sources();
    let satisfied = WaitAnyStatus::decode(1, 3, objects.clone());
    assert!(!satisfied.alerted);
    assert_eq!(satisfied.index, 1);

    let alerted = WaitAnyStatus::decode(3, 3, objects);
    assert!(alerted.alerted);
    assert_eq!(alerted.index, 3);
}

#[test]
fn free_requests_match_the_source_kind() {
    let owner = OwnerId::new(11);
    let m = Mutex { id: 1 };
    let s = Semaphore { id: 2 };
    let e = Event { id: 3 };
    assert_eq!(EventSources::from(m).free(owner), FreeRequest::Unlock(m, owner));
    assert_eq!(EventSources::from(s).free(owner), FreeRequest::Release(s, 1));
    assert_eq!(EventSources::from(e).free(owner), FreeRequest::Reset(e));
}

#[test]
fn wait_sources_expose_their_handles() {
    let e = Event { id: 21 };
    let s = Semaphore { id: 22 };
    let m = Mutex { id: 23 };
    assert_eq!(e.handle(), 21);
    assert_eq!(s.handle(), 22);
    assert_eq!(m.handle(), 23);
    assert_eq!(e.as_source(), EventSources::Event(e));
    assert_eq!(s.as_source(), EventSources::Semaphore(s));
    assert_eq!(m.as_source(), EventSources::Mutex(m));
    assert_eq!(EventSources::Event(e).handle(), 21);
}

#[test]
fn flags_choose_the_timeout_clock() {
    assert_eq!(NtSyncFlags::empty().bits, 0);
    assert_eq!(NtSyncFlags::default().bits, 0);
    assert_eq!(NtSyncFlags::realtime().bits, 1);
    assert_eq!(OwnerId::default().0, 0);
}
