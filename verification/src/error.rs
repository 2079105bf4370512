use vstd::prelude::*;

verus! {

/// Raw failure signals of the device boundary, as Linux defines them.
pub const RAW_PERM: i32 = 1;
/// Signal delivered while the request was in flight.
pub const RAW_INTR: i32 = 4;
/// Low-level input/output failure.
pub const RAW_IO: i32 = 5;
/// Operation on a handle that is no longer open.
pub const RAW_BADF: i32 = 9;
/// Bad argument, or a handle that the connection does not know.
pub const RAW_INVAL: i32 = 22;
/// A semaphore release that would exceed the maximum.
pub const RAW_OVERFLOW: i32 = 75;
/// The wait ran out of time.
pub const RAW_TIMEDOUT: i32 = 110;
/// The previous holder of a mutex died while owning it.
pub const RAW_OWNERDEAD: i32 = 130;

/// The closed set of domain errors that every operation of this crate reports.
///
/// Raw failure signals of the device boundary are mapped onto exactly one
/// of these kinds; signals outside the documented set are preserved verbatim in
/// [`Error::Unknown`] rather than coerced into a misleading known kind.
#[derive(Debug, Clone, Copy, PartialEq, Eq, Structural)]
pub enum Error {
    /// The device is not present on this system.
    NotExist,
    /// Low-level input/output failure, carrying the raw operating-system error code.
    IOError(i32),
    /// Bad arguments, or a handle used through the wrong connection.
    InvalidValue,
    /// A semaphore release whose amount would push the counter past its maximum.
    SemaphoreOverflow,
    /// A mutex unlock or kill attempted by a token that does not hold it.
    PermissionDenied,
    /// The wait ended because the requested time ran out.
    Timeout,
    /// The previous holder of a mutex died while owning it.
    OwnerDead,
    /// An operating-system signal interrupted the call.
    Interrupt,
    /// An event appears both as a wait source and as the alert of the same call.
    DuplicateEvent,
    /// An operation on a handle that was already deleted.
    AlreadyClosed,
    /// An undocumented failure signal, preserved with its raw value.
    Unknown(i32),
}

/// The total mapping from a raw boundary signal to the domain taxonomy.
pub open spec fn spec_from_errno(errno: i32) -> Error {
    if errno == RAW_PERM {
        Error::PermissionDenied
    } else if errno == RAW_INTR {
        Error::Interrupt
    } else if errno == RAW_IO {
        Error::IOError(RAW_IO)
    } else if errno == RAW_BADF {
        Error::AlreadyClosed
    } else if errno == RAW_INVAL {
        Error::InvalidValue
    } else if errno == RAW_OVERFLOW {
        Error::SemaphoreOverflow
    } else if errno == RAW_TIMEDOUT {
        Error::Timeout
    } else if errno == RAW_OWNERDEAD {
        Error::OwnerDead
    } else {
        Error::Unknown(errno)
    }
}

impl Error {
    /// Translates a raw failure signal of the device boundary into the taxonomy.
    ///
    /// The mapping is total: every documented signal lands on its own kind, and
    /// every other value is kept as [`Error::Unknown`] with the raw code.
    pub fn from_errno(errno: i32) -> (r: Error)
        ensures
            r == spec_from_errno(errno),
    {
        if errno == RAW_PERM {
            Error::PermissionDenied
        } else if errno == RAW_INTR {
            Error::Interrupt
        } else if errno == RAW_IO {
            Error::IOError(RAW_IO)
        } else if errno == RAW_BADF {
            Error::AlreadyClosed
        } else if errno == RAW_INVAL {
            Error::InvalidValue
        } else if errno == RAW_OVERFLOW {
            Error::SemaphoreOverflow
        } else if errno == RAW_TIMEDOUT {
            Error::Timeout
        } else if errno == RAW_OWNERDEAD {
            Error::OwnerDead
        } else {
            Error::Unknown(errno)
        }
    }
}

} // verus!
