//! The closed error taxonomy for a sweep attempt, and its classification into
//! the three control decisions the scheduler can take.

use vstd::prelude::*;

verus! {

/// A failure surfaced during a sweep attempt, as a closed set of causes so
/// that classification can match on structure instead of message text.
#[derive(Clone, Copy, Debug, PartialEq, Eq, Structural)]
pub enum SyncError {
    /// The remote rejected the credentials (invalid or revoked).
    AuthFailed { status: u16 },
    /// The store belongs to a different owning account.
    OwnerMismatch,
    /// The remote asked the caller to slow down.
    RateLimited,
    /// The remote could not be reached at all.
    NetworkUnreachable,
    /// The backing store failed a read or a write.
    StoreFailure,
    /// A sweep was asked to open while one was already open.
    SweepAlreadyOpen,
    /// The remote answered with a protocol error of no recognized kind.
    RemoteProtocol { status: u16 },
}

/// What the scheduler should do about a failed sweep attempt.
#[derive(Clone, Copy, Debug, PartialEq, Eq, Structural)]
pub enum ErrorClass {
    /// Stop the loop entirely; retrying cannot help.
    Fatal,
    /// Discard the attempt and try a fresh sweep on the next tick.
    Retryable,
    /// Treated like `Retryable`, but surfaced more loudly.
    Unknown,
}

/// The class each error falls under: credential and ownership failures are
/// fatal, rate limiting and unreachability are retryable, everything else is
/// unknown.
pub open spec fn class_of(e: SyncError) -> ErrorClass {
    match e {
        SyncError::AuthFailed { .. } => ErrorClass::Fatal,
        SyncError::OwnerMismatch => ErrorClass::Fatal,
        SyncError::RateLimited => ErrorClass::Retryable,
        SyncError::NetworkUnreachable => ErrorClass::Retryable,
        SyncError::StoreFailure => ErrorClass::Unknown,
        SyncError::SweepAlreadyOpen => ErrorClass::Unknown,
        SyncError::RemoteProtocol { .. } => ErrorClass::Unknown,
    }
}

/// Maps a sweep failure to the control decision it calls for.
pub fn classify(e: &SyncError) -> (c: ErrorClass)
    ensures
        c == class_of(*e),
{
    match e {
        SyncError::AuthFailed { .. } => ErrorClass::Fatal,
        SyncError::OwnerMismatch => ErrorClass::Fatal,
        SyncError::RateLimited => ErrorClass::Retryable,
        SyncError::NetworkUnreachable => ErrorClass::Retryable,
        SyncError::StoreFailure => ErrorClass::Unknown,
        SyncError::SweepAlreadyOpen => ErrorClass::Unknown,
        SyncError::RemoteProtocol { .. } => ErrorClass::Unknown,
    }
}

} // verus!
