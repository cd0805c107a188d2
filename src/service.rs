//! The decisions of the user service, one store answer at a time.
//!
//! Each function here reads one answer of the store (`Ok(Some(row))`,
//! `Ok(None)` when no row matches, or `Err(message)` when the store failed)
//! or one request, and decides what follows. The machines in `flow` chain
//! them into the operations, in the order that their contracts fix.

use crate::claims::{Claims, signed_token, token_claims};
use crate::config::Config;
use crate::credential::{Model, NewCredential};
use crate::crypto::{generate_salt, is_salt, password_digest};
use crate::error::AuthError;
use crate::user::{NewUser, UserModel};
use vstd::prelude::*;

verus! {

/// The expiry written into every token that login issues.
pub const NEVER_EXPIRES: i32 = 2147483647;

/// The outcome of reading a token, as an operation reports it.
pub open spec fn authenticated(token: Option<String>, secret: Seq<char>) -> Result<Claims, AuthError> {
    match token {
        None => Err(AuthError::Unauthenticated),
        Some(t) => match token_claims(t@, secret) {
            Some(c) => Ok(c),
            None => Err(AuthError::Unauthenticated),
        },
    }
}

/// The claims an operation runs under: the token must check out and, where
/// the configuration enforces expiry, must not have expired by `now`.
pub open spec fn admitted(token: Option<String>, now: i64, secret: Seq<char>, enforce_expiry: bool) -> Result<Claims, AuthError> {
    match authenticated(token, secret) {
        Ok(c) => if enforce_expiry && c.exp < now {
            Err(AuthError::Unauthenticated)
        } else {
            Ok(c)
        },
        Err(e) => Err(e),
    }
}

/// A user that must exist: missing is `NotFound`.
pub open spec fn found_user(found: Result<Option<UserModel>, String>) -> Result<UserModel, AuthError> {
    match found {
        Ok(Some(u)) => Ok(u),
        Ok(None) => Err(AuthError::NotFound),
        Err(m) => Err(AuthError::StorageError(m)),
    }
}

/// The user a login names: missing is `Unauthenticated`, as a wrong password is.
pub open spec fn login_candidate(found: Result<Option<UserModel>, String>) -> Result<UserModel, AuthError> {
    match found {
        Ok(Some(u)) => Ok(u),
        Ok(None) => Err(AuthError::Unauthenticated),
        Err(m) => Err(AuthError::StorageError(m)),
    }
}

/// Whether the credential found for a login's user admits `password`.
pub open spec fn login_check(found: Result<Option<Model>, String>, password: Seq<char>) -> Result<(), AuthError> {
    match found {
        Ok(Some(c)) => if c.accepts(password) {
            Ok(())
        } else {
            Err(AuthError::Unauthenticated)
        },
        Ok(None) => Err(AuthError::InternalInconsistency),
        Err(m) => Err(AuthError::StorageError(m)),
    }
}

/// `after` is `before` with its password replaced by `password`: same row,
/// new salt and digest together.
pub open spec fn rehashed(before: Model, after: Model, password: Seq<char>) -> bool {
    &&& after.id == before.id
    &&& after.user_id == before.user_id
    &&& after.password@ == password_digest(password, after.salt@)
}

/// Whether `acting` may create the account `username` with `password`.
pub open spec fn create_allowed(acting: UserModel, username: Seq<char>, password: Seq<char>) -> Result<(), AuthError> {
    if !acting.admin {
        Err(AuthError::PermissionDenied)
    } else if username.len() == 0 || password.len() == 0 {
        Err(AuthError::InvalidArgument)
    } else {
        Ok(())
    }
}

/// After a password change the new password logs in; the old one no longer
/// does, unless it gives the same digest as the new one under the new salt.
pub proof fn lemma_changed_password_logs_in(
    before: Model,
    after: Model,
    old_password: Seq<char>,
    new_password: Seq<char>,
)
    requires
        rehashed(before, after, new_password),
    ensures
        login_check(Ok(Some(after)), new_password) == Ok::<(), AuthError>(()),
        password_digest(old_password, after.salt@) != password_digest(new_password, after.salt@)
            ==> login_check(Ok(Some(after)), old_password) == Err::<(), AuthError>(
            AuthError::Unauthenticated,
        ),
{
}

/// A credential created for an account, once stored, admits the password it
/// was created for.
pub proof fn lemma_created_account_logs_in(created: NewCredential, stored: Model, password: Seq<char>)
    requires
        created.password@ == password_digest(password, created.salt@),
        stored.password@ == created.password@,
        stored.salt@ == created.salt@,
    ensures
        login_check(Ok(Some(stored)), password) == Ok::<(), AuthError>(()),
{
}

/// An unknown nickname and a wrong password fail a login with the same
/// error, so a caller cannot tell them apart.
pub proof fn lemma_unknown_user_looks_like_wrong_password(stored: Model, password: Seq<char>)
    requires
        !stored.accepts(password),
    ensures
        login_candidate(Ok(None)) matches Err(unknown) && login_check(Ok(Some(stored)), password) matches Err(
            wrong,
        ) && unknown == wrong,
{
}

/// Reads the user lookup of a login.
pub fn login_user(found: Result<Option<UserModel>, String>) -> (r: Result<UserModel, AuthError>)
    ensures
        r == login_candidate(found),
{
    match found {
        Ok(Some(u)) => Ok(u),
        Ok(None) => Err(AuthError::Unauthenticated),
        Err(m) => Err(AuthError::StorageError(m)),
    }
}

/// Reads a lookup of a user that must exist.
pub fn resolve_user(found: Result<Option<UserModel>, String>) -> (r: Result<UserModel, AuthError>)
    ensures
        r == found_user(found),
{
    match found {
        Ok(Some(u)) => Ok(u),
        Ok(None) => Err(AuthError::NotFound),
        Err(m) => Err(AuthError::StorageError(m)),
    }
}

/// A user search needs a query: none is `InvalidArgument`.
pub fn find_query(query: Option<String>) -> (r: Result<String, AuthError>)
    ensures
        r == (match query {
            Some(q) => Ok::<String, AuthError>(q),
            None => Err(AuthError::InvalidArgument),
        }),
{
    match query {
        Some(q) => Ok(q),
        None => Err(AuthError::InvalidArgument),
    }
}

/// Reads the store's answer to a write.
pub fn written(res: Result<(), String>) -> (r: Result<(), AuthError>)
    ensures
        r == (match res {
            Ok(()) => Ok::<(), AuthError>(()),
            Err(m) => Err(AuthError::StorageError(m)),
        }),
{
    match res {
        Ok(()) => Ok(()),
        Err(m) => Err(AuthError::StorageError(m)),
    }
}

/// Reads the lookup of the nickname an account is to be created under.
pub fn check_nickname_free(found: Result<Option<UserModel>, String>) -> (r: Result<(), AuthError>)
    ensures
        r == (match found {
            Ok(None) => Ok::<(), AuthError>(()),
            Ok(Some(_)) => Err(AuthError::AlreadyExists),
            Err(m) => Err(AuthError::StorageError(m)),
        }),
{
    match found {
        Ok(None) => Ok(()),
        Ok(Some(_)) => Err(AuthError::AlreadyExists),
        Err(m) => Err(AuthError::StorageError(m)),
    }
}

/// Only an admin may create accounts, and only with a nickname and a
/// password that are not empty.
pub fn authorize_create(acting: &UserModel, username: &String, password: &String) -> (r: Result<(), AuthError>)
    ensures
        r == create_allowed(*acting, username@, password@),
{
    if !acting.admin {
        Err(AuthError::PermissionDenied)
    } else if username.as_str().is_empty() || password.as_str().is_empty() {
        Err(AuthError::InvalidArgument)
    } else {
        Ok(())
    }
}

/// The row of a new account: never an admin.
pub fn new_user(username: String) -> (r: NewUser)
    ensures
        r.nickname@ == username@,
        !r.admin,
{
    NewUser { nickname: username, admin: false }
}

/// The credential of a freshly created user, under the given salt.
pub fn credential_with_salt(created: Result<UserModel, String>, password: String, salt: String) -> (r: Result<NewCredential, AuthError>)
    ensures
        match created {
            Ok(u) => r matches Ok(n) && n.user_id == u.id && n.salt@ == salt@ && n.password@
                == password_digest(password@, salt@),
            Err(m) => r == Err::<NewCredential, AuthError>(AuthError::StorageError(m)),
        },
{
    match created {
        Ok(u) => Ok(NewCredential::new(u.id, password, salt)),
        Err(m) => Err(AuthError::StorageError(m)),
    }
}

/// The credential of a freshly created user, under a fresh salt.
pub fn credential_for(created: Result<UserModel, String>, password: String) -> (r: Result<NewCredential, AuthError>)
    ensures
        match created {
            Ok(u) => r matches Ok(n) && n.user_id == u.id && is_salt(n.salt@) && n.password@
                == password_digest(password@, n.salt@),
            Err(m) => r == Err::<NewCredential, AuthError>(AuthError::StorageError(m)),
        },
{
    let salt = generate_salt();
    credential_with_salt(created, password, salt)
}

/// The credential found for a password change, rehashed under the given salt.
pub fn change_password_with_salt(found: Result<Option<Model>, String>, new_password: String, salt: String) -> (r: Result<Model, AuthError>)
    ensures
        match found {
            Ok(Some(c)) => r matches Ok(n) && rehashed(c, n, new_password@) && n.salt@ == salt@,
            Ok(None) => r == Err::<Model, AuthError>(AuthError::NotFound),
            Err(m) => r == Err::<Model, AuthError>(AuthError::StorageError(m)),
        },
{
    match found {
        Ok(Some(c)) => Ok(c.with_password(new_password, salt)),
        Ok(None) => Err(AuthError::NotFound),
        Err(m) => Err(AuthError::StorageError(m)),
    }
}

/// The credential found for a password change, rehashed under a fresh salt.
pub fn change_password(found: Result<Option<Model>, String>, new_password: String) -> (r: Result<Model, AuthError>)
    ensures
        match found {
            Ok(Some(c)) => r matches Ok(n) && rehashed(c, n, new_password@) && is_salt(n.salt@),
            Ok(None) => r == Err::<Model, AuthError>(AuthError::NotFound),
            Err(m) => r == Err::<Model, AuthError>(AuthError::StorageError(m)),
        },
{
    let salt = generate_salt();
    change_password_with_salt(found, new_password, salt)
}

/// The user service: the configuration that every operation shares.
#[derive(Clone, Debug)]
pub struct UsersService {
    pub config: Config,
}

impl UsersService {
    pub open spec fn secret(&self) -> Seq<char> {
        self.config.jwt_secret@
    }

    pub fn new(config: Config) -> (r: UsersService)
        ensures
            r.config == config,
    {
        UsersService { config }
    }

    /// Reads the bearer token of an operation: none, or one that does not
    /// check out under the shared secret, is `Unauthenticated`.
    pub fn authenticate(&self, token: Option<String>) -> (r: Result<Claims, AuthError>)
        ensures
            r == authenticated(token, self.secret()),
            forall|c: Claims|
                #![trigger signed_token(c.user_id, c.exp, self.secret())]
                token matches Some(t) && t@ == signed_token(c.user_id, c.exp, self.secret())
                    ==> r == Ok::<Claims, AuthError>(c),
    {
        match token {
            None => Err(AuthError::Unauthenticated),
            Some(t) => match Claims::from_jwt(t, self.config.jwt_secret.clone()) {
                Ok(c) => Ok(c),
                Err(_) => Err(AuthError::Unauthenticated),
            },
        }
    }

    /// Checks the expiry of authenticated claims at time `now` (seconds since
    /// the Unix epoch). Only where the configuration enforces expiry is a
    /// token whose expiry has passed `Unauthenticated`.
    pub fn check_expiry(&self, claims: Claims, now: i64) -> (r: Result<Claims, AuthError>)
        ensures
            r == (if self.config.enforce_expiry && claims.exp < now {
                Err(AuthError::Unauthenticated)
            } else {
                Ok::<Claims, AuthError>(claims)
            }),
    {
        if self.config.enforce_expiry && (claims.exp as i64) < now {
            Err(AuthError::Unauthenticated)
        } else {
            Ok(claims)
        }
    }

    /// `authenticate` followed by `check_expiry`.
    pub fn session_claims(&self, token: Option<String>, now: i64) -> (r: Result<Claims, AuthError>)
        ensures
            r == admitted(token, now, self.secret(), self.config.enforce_expiry),
    {
        match self.authenticate(token) {
            Ok(c) => self.check_expiry(c, now),
            Err(e) => Err(e),
        }
    }

    /// Checks the password against the credential found for the user `user_id`,
    /// and on success issues a token for that user that never expires.
    pub fn login_with_credential(&self, user_id: i32, found: Result<Option<Model>, String>, password: String) -> (r: Result<String, AuthError>)
        ensures
            match login_check(found, password@) {
                Ok(_) => r matches Ok(t) && t@ == signed_token(user_id, NEVER_EXPIRES, self.secret())
                    && token_claims(t@, self.secret()) == Some(Claims { user_id, exp: NEVER_EXPIRES }),
                Err(e) => r == Err::<String, AuthError>(e),
            },
    {
        match found {
            Ok(Some(c)) => {
                if c.verify_password(password) {
                    let claims = Claims { user_id, exp: NEVER_EXPIRES };
                    match claims.to_jwt(self.config.jwt_secret.clone()) {
                        Ok(t) => Ok(t),
                        Err(_) => Err(AuthError::InternalInconsistency),
                    }
                } else {
                    Err(AuthError::Unauthenticated)
                }
            },
            Ok(None) => Err(AuthError::InternalInconsistency),
            Err(m) => Err(AuthError::StorageError(m)),
        }
    }
}

} // verus!
