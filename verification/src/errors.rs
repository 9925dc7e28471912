//! The error taxonomy of the lifecycle operations, and the mapping from each
//! error to the abstract status signal reported to callers.

use vstd::prelude::*;

verus! {

/// Everything a lifecycle operation or the request guard can fail with.
#[derive(Clone, Copy, Debug, PartialEq, Eq, Structural)]
pub enum AuthError {
    /// Client-supplied data fails the username or password policy.
    InvalidInput,
    /// No account matches the given identifier.
    NotFound,
    /// The account's email address is already verified.
    AlreadyVerified,
    /// The account's email address is not verified yet.
    NotVerified,
    /// Authentication failure: wrong password, unknown or superseded token.
    Unauthorized,
    /// The presented password-reset code does not match the pending reset.
    InvalidCode,
    /// The pending password-reset token has expired.
    ResetExpired,
    /// Malformed request shape, such as a missing bearer token.
    BadRequest,
    /// A store, codec or hashing primitive failed; not the caller's fault.
    InternalError,
    /// The state change was persisted but the notification was not delivered.
    DeliveryFailed,
}

/// The abstract status signal reported over the wire for each condition.
#[derive(Clone, Copy, Debug, PartialEq, Eq, Structural)]
pub enum Signal {
    BadRequest,
    Unauthorized,
    NotFound,
    NotAcceptable,
    InternalError,
}

/// What `signal_of` must return for each error.
pub open spec fn spec_signal_of(e: AuthError) -> Signal {
    match e {
        AuthError::InvalidInput => Signal::BadRequest,
        AuthError::NotFound => Signal::NotFound,
        AuthError::AlreadyVerified => Signal::BadRequest,
        AuthError::NotVerified => Signal::NotAcceptable,
        AuthError::Unauthorized => Signal::Unauthorized,
        AuthError::InvalidCode => Signal::BadRequest,
        AuthError::ResetExpired => Signal::BadRequest,
        AuthError::BadRequest => Signal::BadRequest,
        AuthError::InternalError => Signal::InternalError,
        AuthError::DeliveryFailed => Signal::InternalError,
    }
}

impl AuthError {
    /// Map an error to the signal the transport layer reports: one-time-code
    /// failures and policy violations are bad requests, credential failures
    /// are unauthorized, an unverified account is not acceptable, and
    /// primitive faults are internal.
    pub fn signal_of(self) -> (s: Signal)
        ensures
            s == spec_signal_of(self),
    {
        match self {
            AuthError::InvalidInput => Signal::BadRequest,
            AuthError::NotFound => Signal::NotFound,
            AuthError::AlreadyVerified => Signal::BadRequest,
            AuthError::NotVerified => Signal::NotAcceptable,
            AuthError::Unauthorized => Signal::Unauthorized,
            AuthError::InvalidCode => Signal::BadRequest,
            AuthError::ResetExpired => Signal::BadRequest,
            AuthError::BadRequest => Signal::BadRequest,
            AuthError::InternalError => Signal::InternalError,
            AuthError::DeliveryFailed => Signal::InternalError,
        }
    }
}

} // verus!
