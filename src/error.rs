//! The kinds of failure that the service reports.

use vstd::prelude::*;

verus! {

/// Every failure of an operation, returned to the transport to render.
#[derive(Clone, Debug, PartialEq, Eq)]
pub enum AuthError {
    /// Bad credentials, or a missing, unreadable or wrongly signed token.
    Unauthenticated,
    /// Authenticated, but not allowed to do this.
    PermissionDenied,
    /// A referenced user or credential does not exist.
    NotFound,
    /// The nickname is already taken.
    AlreadyExists,
    /// The caller's input is malformed.
    InvalidArgument,
    /// A user exists without a credential: directory and store disagree.
    InternalInconsistency,
    /// The store failed; its message is passed on as it is.
    StorageError(String),
}

/// The HTTP status for each kind of failure.
pub open spec fn status_of(e: AuthError) -> u16 {
    match e {
        AuthError::Unauthenticated => 401,
        AuthError::PermissionDenied => 403,
        AuthError::NotFound => 404,
        AuthError::AlreadyExists => 409,
        AuthError::InvalidArgument => 400,
        AuthError::InternalInconsistency => 500,
        AuthError::StorageError(_) => 500,
    }
}

impl AuthError {
    /// The HTTP status code that reports this failure.
    pub fn http_status(&self) -> (r: u16)
        ensures
            r == status_of(*self),
    {
        match self {
            AuthError::Unauthenticated => 401,
            AuthError::PermissionDenied => 403,
            AuthError::NotFound => 404,
            AuthError::AlreadyExists => 409,
            AuthError::InvalidArgument => 400,
            AuthError::InternalInconsistency => 500,
            AuthError::StorageError(_) => 500,
        }
    }
}

} // verus!
