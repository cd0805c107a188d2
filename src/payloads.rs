//! Request bodies and replies of the operations, as plain data.

use vstd::prelude::*;

verus! {

/// Credentials presented at login.
#[derive(Clone, Debug, PartialEq, Eq)]
pub struct LoginPayload {
    pub username: String,
    pub password: String,
}

/// A nickname prefix to search for.
#[derive(Clone, Debug, PartialEq, Eq)]
pub struct FindPayload {
    pub nickname: String,
}

/// The password that replaces the caller's own.
#[derive(Clone, Debug, PartialEq, Eq)]
pub struct ChangePasswordPayload {
    pub new_password: String,
}

/// An account to create.
#[derive(Clone, Debug, PartialEq, Eq)]
pub struct CreateUserPayload {
    pub username: String,
    pub password: String,
}

/// The token that a successful login returns.
#[derive(Clone, Debug, PartialEq, Eq)]
pub struct LoginResponse {
    pub token: String,
}

} // verus!
