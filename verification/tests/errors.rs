use ntsync::Error;

#[test]
fn documented_signals_map_to_their_own_kinds() {
    assert_eq!(Error::from_errno(ntsync::RAW_PERM), Error::PermissionDenied);
    assert_eq!(Error::from_errno(ntsync::RAW_INTR), Error::Interrupt);
    assert_eq!(Error::from_errno(ntsync::RAW_IO), Error::IOError(5));
    assert_eq!(Error::from_errno(ntsync::RAW_BADF), Error::AlreadyClosed);
    assert_eq!(Error::from_errno(ntsync::RAW_INVAL), Error::InvalidValue);
    assert_eq!(Error::from_errno(ntsync::RAW_OVERFLOW), Error::SemaphoreOverflow);
    assert_eq!(Error::from_errno(ntsync::RAW_TIMEDOUT), Error::Timeout);
    assert_eq!(Error::from_errno(ntsync::RAW_OWNERDEAD), Error::OwnerDead);
}

#[test]
fn undocumented_signals_keep_their_raw_value() {
    assert_eq!(Error::from_errno(0), Error::Unknown(0));
    assert_eq!(Error::from_errno(2), Error::Unknown(2));
    assert_eq!(Error::from_errno(11), Error::Unknown(11));
    assert_eq!(Error::from_errno(-1), Error::Unknown(-1));
    assert_eq!(Error::from_errno(i32::MAX), Error::Unknown(i32::MAX));
}

#[test]
fn error_kinds_compare_by_kind_and_payload() {
    assert_eq!(Error::Timeout, Error::Timeout);
    assert_ne!(Error::Timeout, Error::Interrupt);
    assert_eq!(Error::Unknown(3), Error::Unknown(3));
    assert_ne!(Error::Unknown(3), Error::Unknown(4));
    assert_ne!(Error::IOError(5), Error::Unknown(5));
}
