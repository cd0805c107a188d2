//! Stored credentials: one salted password digest per user.

use crate::crypto::{hash_password, password_digest, is_digest};
use vstd::prelude::*;

verus! {

/// A stored credential. `password` is the digest of the password and the
/// salt, never the password itself.
#[derive(Clone, Debug, PartialEq, Eq)]
pub struct Model {
    pub id: i32,
    pub user_id: i32,
    pub password: String,
    pub salt: String,
}

/// A credential row still to be inserted; the store assigns its id.
#[derive(Clone, Debug, PartialEq, Eq)]
pub struct NewCredential {
    pub user_id: i32,
    pub password: String,
    pub salt: String,
}

/// Whether `password`, hashed with the credential's salt, gives its digest.
pub open spec fn accepts(stored: Seq<char>, salt: Seq<char>, password: Seq<char>) -> bool {
    stored == password_digest(password, salt)
}

impl Model {
    pub open spec fn accepts(&self, password: Seq<char>) -> bool {
        accepts(self.password@, self.salt@, password)
    }

    /// Whether `password_to_verify` is the password this credential was made
    /// from (up to a collision of the digest).
    pub fn verify_password(&self, password_to_verify: String) -> (r: bool)
        ensures
            r == self.accepts(password_to_verify@),
    {
        let digest = hash_password(password_to_verify, self.salt.clone());
        self.password == digest
    }

    /// The same credential with a new password: salt and digest are replaced
    /// together.
    pub fn with_password(&self, new_password: String, salt: String) -> (r: Model)
        ensures
            r.id == self.id,
            r.user_id == self.user_id,
            r.salt@ == salt@,
            r.password@ == password_digest(new_password@, salt@),
            is_digest(r.password@),
            r.accepts(new_password@),
    {
        let password = hash_password(new_password, salt.clone());
        Model { id: self.id, user_id: self.user_id, password, salt }
    }
}

impl NewCredential {
    /// The credential of user `user_id` for `password` under `salt`.
    pub fn new(user_id: i32, password: String, salt: String) -> (r: NewCredential)
        ensures
            r.user_id == user_id,
            r.salt@ == salt@,
            r.password@ == password_digest(password@, salt@),
            is_digest(r.password@),
    {
        let digest = hash_password(password, salt.clone());
        NewCredential { user_id, password: digest, salt }
    }
}

} // verus!
