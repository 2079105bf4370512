use ntsync::EventStatus;
use ntsync::MutexStatus;
use ntsync::OwnerId;
use ntsync::SemaphoreStatus;
use ntsync::SourceState;
use ntsync::acquire_all;
use ntsync::acquire_any;

fn ready_set(owner: OwnerId) -> Vec<SourceState> {
    vec![
        SourceState::Mutex(MutexStatus::default().acquire(owner)),
        SourceState::Semaphore(SemaphoreStatus { count: 2, max: 3 }),
        SourceState::Event(EventStatus::new(true, true)),
        SourceState::Event(EventStatus::new(false, true)),
    ]
}

#[test]
fn wait_all_acquires_every_source_together() {
    let owner = OwnerId::new(7);
    let states = ready_set(owner);
    let after = acquire_all(&states, owner).expect("every source is available");
    assert_eq!(after.len(), 4);

    // The mutex is re-acquired by its holder: the depth steps up.
    assert_eq!(after[0], SourceState::Mutex(MutexStatus { owner, count: 2 }));
    // The semaphore loses one unit.
    assert_eq!(after[1], SourceState::Semaphore(SemaphoreStatus { count: 1, max: 3 }));
    // The manual event stays signaled for every further waiter.
    assert_eq!(after[2], SourceState::Event(EventStatus::new(true, true)));
    // The auto event clears for the one waiter it woke.
    assert_eq!(after[3], SourceState::Event(EventStatus::new(false, false)));
}

#[test]
fn wait_all_blocked_by_a_mutex_held_elsewhere() {
    let holder = OwnerId::new(5);
    let other = OwnerId::new(6);
    let mut states = ready_set(other);
    states[0] = SourceState::Mutex(MutexStatus::default().acquire(holder));
    // No partial acquisition: the whole set stays untouched.
    assert_eq!(acquire_all(&states, other), None);
}

#[test]
fn wait_all_blocked_by_a_drained_semaphore() {
    let owner = OwnerId::new(7);
    let mut states = ready_set(owner);
    states[1] = SourceState::Semaphore(SemaphoreStatus { count: 0, max: 3 });
    assert_eq!(acquire_all(&states, owner), None);
}

#[test]
fn wait_all_blocked_by_a_clear_event() {
    let owner = OwnerId::new(7);
    let mut states = ready_set(owner);
    states[2] = SourceState::Event(EventStatus::new(true, false));
    assert_eq!(acquire_all(&states, owner), None);
}

#[test]
fn wait_all_on_an_empty_set_is_satisfied_at_once() {
    let states: Vec<SourceState> = Vec::new();
    assert_eq!(acquire_all(&states, OwnerId::new(1)), Some(Vec::new()));
}

#[test]
fn wait_any_touches_only_the_satisfied_source() {
    let owner = OwnerId::new(9);
    let states = ready_set(owner);
    let after = acquire_any(&states, 1, owner);
    assert_eq!(after[0], states[0]);
    assert_eq!(after[1], SourceState::Semaphore(SemaphoreStatus { count: 1, max: 3 }));
    assert_eq!(after[2], states[2]);
    assert_eq!(after[3], states[3]);
}

#[test]
fn availability_follows_the_kind() {
    let owner = OwnerId::new(4);
    let other = OwnerId::new(5);
    let free_mutex = SourceState::Mutex(MutexStatus::default());
    assert!(free_mutex.available_for(owner));
    let held = SourceState::Mutex(MutexStatus::default().acquire(other));
    assert!(!held.available_for(owner));
    assert!(held.available_for(other));
    assert!(!SourceState::Semaphore(SemaphoreStatus { count: 0, max: 1 }).available_for(owner));
    assert!(SourceState::Semaphore(SemaphoreStatus { count: 1, max: 1 }).available_for(owner));
    assert!(!SourceState::Event(EventStatus::new(false, false)).available_for(owner));
    assert!(SourceState::Event(EventStatus::new(false, true)).available_for(owner));
}
