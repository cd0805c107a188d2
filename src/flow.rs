//! Each operation as a machine of steps: from its stage and the store's
//! answer to the next stage and the next action.
//!
//! `start` takes the request and gives the flow with its first action. While
//! the action is a `Call`, the caller performs that store call and hands the
//! answer to `resume`, which gives the next action; `Done` carries the
//! outcome. The contracts fix the order of the steps: the store is written
//! only once every check has passed, and the first failure ends the flow.
//! An answer that does not fit the call asked for, or one given to a finished
//! flow, ends it with `InternalInconsistency`.

use crate::claims::{Claims, signed_token, token_claims};
use crate::credential::{Model, NewCredential};
use crate::crypto::{is_salt, password_digest};
use crate::error::AuthError;
use crate::service::{
    admitted, authorize_create, change_password, check_nickname_free, create_allowed,
    credential_for, found_user, login_candidate, login_check, login_user, new_user, rehashed,
    resolve_user, written, UsersService, NEVER_EXPIRES,
};
use crate::user::{NewUser, UserModel};
use vstd::prelude::*;

verus! {

/// A call on the user directory or the credential store.
#[derive(Debug, PartialEq, Eq)]
pub enum StoreCall {
    UserById(i32),
    UserByNickname(String),
    CredentialOf(i32),
    CreateUser(NewUser),
    InsertCredential(NewCredential),
    UpdateCredential(Model),
    DeleteUser(i32),
}

/// The store's answer to a call: a lookup's row, if any; the created user;
/// or the outcome of a write. `Err` carries the store's message.
#[derive(Debug, PartialEq, Eq)]
pub enum StoreAnswer {
    User(Result<Option<UserModel>, String>),
    Credential(Result<Option<Model>, String>),
    Created(Result<UserModel, String>),
    Written(Result<(), String>),
}

/// What a flow asks for next.
#[derive(Debug, PartialEq, Eq)]
pub enum Action<T> {
    Call(StoreCall),
    Done(Result<T, AuthError>),
}

/// Whether a call changes the store.
pub open spec fn is_write(c: StoreCall) -> bool {
    ||| c is CreateUser
    ||| c is InsertCredential
    ||| c is UpdateCredential
    ||| c is DeleteUser
}

pub open spec fn misfit<T>() -> Action<T> {
    Action::Done(Err(AuthError::InternalInconsistency))
}

#[derive(Clone, Copy, Debug, PartialEq, Eq, Structural)]
pub enum LoginStage {
    AwaitUser,
    AwaitCredential { user_id: i32 },
    Finished,
}

/// Login: find the user by nickname, then check the password against the
/// user's credential and issue a token.
pub struct LoginFlow {
    pub username: String,
    pub password: String,
    pub stage: LoginStage,
}

impl LoginFlow {
    pub fn start(username: String, password: String) -> (r: (LoginFlow, Action<String>))
        ensures
            r.0.username == username,
            r.0.password == password,
            r.0.stage == LoginStage::AwaitUser,
            r.1 == Action::<String>::Call(StoreCall::UserByNickname(username)),
    {
        let call = StoreCall::UserByNickname(username.clone());
        (LoginFlow { username, password, stage: LoginStage::AwaitUser }, Action::Call(call))
    }

    pub fn resume(&mut self, service: &UsersService, answer: StoreAnswer) -> (r: Action<String>)
        ensures
            final(self).username == old(self).username,
            final(self).password == old(self).password,
            match (old(self).stage, answer) {
                (LoginStage::AwaitUser, StoreAnswer::User(found)) => match login_candidate(found) {
                    Ok(u) => r == Action::<String>::Call(StoreCall::CredentialOf(u.id))
                        && final(self).stage == (LoginStage::AwaitCredential { user_id: u.id }),
                    Err(e) => r == Action::<String>::Done(Err(e)) && final(self).stage
                        == LoginStage::Finished,
                },
                (LoginStage::AwaitCredential { user_id }, StoreAnswer::Credential(found)) => {
                    &&& final(self).stage == LoginStage::Finished
                    &&& match login_check(found, old(self).password@) {
                        Ok(_) => r matches Action::Done(Ok(t)) && t@ == signed_token(
                            user_id,
                            NEVER_EXPIRES,
                            service.secret(),
                        ) && token_claims(t@, service.secret()) == Some(
                            Claims { user_id, exp: NEVER_EXPIRES },
                        ),
                        Err(e) => r == Action::<String>::Done(Err(e)),
                    }
                },
                _ => r == misfit::<String>() && final(self).stage == LoginStage::Finished,
            },
    {
        let stage = self.stage;
        self.stage = LoginStage::Finished;
        match (stage, answer) {
            (LoginStage::AwaitUser, StoreAnswer::User(found)) => match login_user(found) {
                Ok(u) => {
                    self.stage = LoginStage::AwaitCredential { user_id: u.id };
                    Action::Call(StoreCall::CredentialOf(u.id))
                },
                Err(e) => Action::Done(Err(e)),
            },
            (LoginStage::AwaitCredential { user_id }, StoreAnswer::Credential(found)) => {
                Action::Done(service.login_with_credential(user_id, found, self.password.clone()))
            },
            _ => Action::Done(Err(AuthError::InternalInconsistency)),
        }
    }
}

#[derive(Clone, Copy, Debug, PartialEq, Eq, Structural)]
pub enum SelfStage {
    AwaitUser,
    Finished,
}

/// Self-lookup: read the token, then find the user it names.
pub struct SelfFlow {
    pub stage: SelfStage,
}

impl SelfFlow {
    pub fn start(service: &UsersService, token: Option<String>, now: i64) -> (r: (SelfFlow, Action<UserModel>))
        ensures
            match admitted(token, now, service.secret(), service.config.enforce_expiry) {
                Ok(c) => r.1 == Action::<UserModel>::Call(StoreCall::UserById(c.user_id))
                    && r.0.stage == SelfStage::AwaitUser,
                Err(e) => r.1 == Action::<UserModel>::Done(Err(e)) && r.0.stage
                    == SelfStage::Finished,
            },
    {
        match service.session_claims(token, now) {
            Ok(c) => (SelfFlow { stage: SelfStage::AwaitUser }, Action::Call(StoreCall::UserById(c.user_id))),
            Err(e) => (SelfFlow { stage: SelfStage::Finished }, Action::Done(Err(e))),
        }
    }

    pub fn resume(&mut self, answer: StoreAnswer) -> (r: Action<UserModel>)
        ensures
            final(self).stage == SelfStage::Finished,
            match (old(self).stage, answer) {
                (SelfStage::AwaitUser, StoreAnswer::User(found)) => r == Action::<UserModel>::Done(
                    found_user(found),
                ),
                _ => r == misfit::<UserModel>(),
            },
    {
        let stage = self.stage;
        self.stage = SelfStage::Finished;
        match (stage, answer) {
            (SelfStage::AwaitUser, StoreAnswer::User(found)) => Action::Done(resolve_user(found)),
            _ => Action::Done(Err(AuthError::InternalInconsistency)),
        }
    }
}

#[derive(Clone, Copy, Debug, PartialEq, Eq, Structural)]
pub enum ChangePasswordStage {
    AwaitCredential,
    AwaitWrite,
    Finished,
}

/// Password change: read the token, fetch the caller's credential, then
/// write it back rehashed under a fresh salt.
pub struct ChangePasswordFlow {
    pub new_password: String,
    pub stage: ChangePasswordStage,
}

impl ChangePasswordFlow {
    pub fn start(service: &UsersService, token: Option<String>, now: i64, new_password: String) -> (r: (ChangePasswordFlow, Action<()>))
        ensures
            r.0.new_password == new_password,
            match admitted(token, now, service.secret(), service.config.enforce_expiry) {
                Ok(c) => r.1 == Action::<()>::Call(StoreCall::CredentialOf(c.user_id))
                    && r.0.stage == ChangePasswordStage::AwaitCredential,
                Err(e) => r.1 == Action::<()>::Done(Err(e)) && r.0.stage
                    == ChangePasswordStage::Finished,
            },
    {
        match service.session_claims(token, now) {
            Ok(c) => (
                ChangePasswordFlow { new_password, stage: ChangePasswordStage::AwaitCredential },
                Action::Call(StoreCall::CredentialOf(c.user_id)),
            ),
            Err(e) => (
                ChangePasswordFlow { new_password, stage: ChangePasswordStage::Finished },
                Action::Done(Err(e)),
            ),
        }
    }

    pub fn resume(&mut self, answer: StoreAnswer) -> (r: Action<()>)
        ensures
            final(self).new_password == old(self).new_password,
            match (old(self).stage, answer) {
                (ChangePasswordStage::AwaitCredential, StoreAnswer::Credential(found)) => match found {
                    Ok(Some(c)) => r matches Action::Call(StoreCall::UpdateCredential(n)) && rehashed(
                        c,
                        n,
                        old(self).new_password@,
                    ) && is_salt(n.salt@) && final(self).stage == ChangePasswordStage::AwaitWrite,
                    Ok(None) => r == Action::<()>::Done(Err(AuthError::NotFound)) && final(self).stage
                        == ChangePasswordStage::Finished,
                    Err(m) => r == Action::<()>::Done(Err(AuthError::StorageError(m)))
                        && final(self).stage == ChangePasswordStage::Finished,
                },
                (ChangePasswordStage::AwaitWrite, StoreAnswer::Written(res)) => {
                    &&& final(self).stage == ChangePasswordStage::Finished
                    &&& r == Action::<()>::Done(
                        match res {
                            Ok(()) => Ok::<(), AuthError>(()),
                            Err(m) => Err(AuthError::StorageError(m)),
                        },
                    )
                },
                _ => r == misfit::<()>() && final(self).stage == ChangePasswordStage::Finished,
            },
    {
        let stage = self.stage;
        self.stage = ChangePasswordStage::Finished;
        match (stage, answer) {
            (ChangePasswordStage::AwaitCredential, StoreAnswer::Credential(found)) => {
                match change_password(found, self.new_password.clone()) {
                    Ok(n) => {
                        self.stage = ChangePasswordStage::AwaitWrite;
                        Action::Call(StoreCall::UpdateCredential(n))
                    },
                    Err(e) => Action::Done(Err(e)),
                }
            },
            (ChangePasswordStage::AwaitWrite, StoreAnswer::Written(res)) => Action::Done(written(res)),
            _ => Action::Done(Err(AuthError::InternalInconsistency)),
        }
    }
}

#[derive(Clone, Copy, Debug, PartialEq, Eq, Structural)]
pub enum CreateUserStage {
    AwaitActingUser,
    AwaitNickname,
    AwaitCreatedUser,
    AwaitCredentialInsert { user_id: i32 },
    AwaitRollback,
    Finished,
}

/// Account creation: read the token; find the acting user, who must be an
/// admin, with a nickname and password that are not empty; check that the
/// nickname is free; create the user, then insert its credential. When the
/// insert fails, the new user is deleted again and the insert's failure is
/// reported.
pub struct CreateUserFlow {
    pub username: String,
    pub password: String,
    /// The store's message from a failed credential insert.
    pub failure: String,
    pub stage: CreateUserStage,
}

impl CreateUserFlow {
    /// Every check has passed: the nickname and password are not empty.
    pub open spec fn checked(&self) -> bool {
        self.username@.len() > 0 && self.password@.len() > 0
    }

    pub fn start(service: &UsersService, token: Option<String>, now: i64, username: String, password: String) -> (r: (CreateUserFlow, Action<()>))
        ensures
            r.0.username == username,
            r.0.password == password,
            match admitted(token, now, service.secret(), service.config.enforce_expiry) {
                Ok(c) => r.1 == Action::<()>::Call(StoreCall::UserById(c.user_id)) && r.0.stage
                    == CreateUserStage::AwaitActingUser,
                Err(e) => r.1 == Action::<()>::Done(Err(e)) && r.0.stage
                    == CreateUserStage::Finished,
            },
    {
        let failure = String::new();
        match service.session_claims(token, now) {
            Ok(c) => (
                CreateUserFlow { username, password, failure, stage: CreateUserStage::AwaitActingUser },
                Action::Call(StoreCall::UserById(c.user_id)),
            ),
            Err(e) => (
                CreateUserFlow { username, password, failure, stage: CreateUserStage::Finished },
                Action::Done(Err(e)),
            ),
        }
    }

    pub fn resume(&mut self, answer: StoreAnswer) -> (r: Action<()>)
        ensures
            final(self).username == old(self).username,
            final(self).password == old(self).password,
            // Nothing is written before the nickname is known to be free, and
            // the flow reaches that lookup only once the checks have passed.
            final(self).stage is AwaitNickname ==> final(self).checked(),
            r matches Action::Call(c) && is_write(c) ==> {
                ||| old(self).stage is AwaitNickname
                ||| old(self).stage is AwaitCreatedUser
                ||| old(self).stage is AwaitCredentialInsert
            },
            match (old(self).stage, answer) {
                (CreateUserStage::AwaitActingUser, StoreAnswer::User(found)) => match found_user(found) {
                    Ok(u) => match create_allowed(u, old(self).username@, old(self).password@) {
                        Ok(_) => r == Action::<()>::Call(StoreCall::UserByNickname(old(self).username))
                            && final(self).stage == CreateUserStage::AwaitNickname,
                        Err(e) => r == Action::<()>::Done(Err(e)) && final(self).stage
                            == CreateUserStage::Finished,
                    },
                    Err(e) => r == Action::<()>::Done(Err(e)) && final(self).stage
                        == CreateUserStage::Finished,
                },
                (CreateUserStage::AwaitNickname, StoreAnswer::User(found)) => match found {
                    Ok(None) => r matches Action::Call(StoreCall::CreateUser(n)) && n.nickname@
                        == old(self).username@ && !n.admin && final(self).stage
                        == CreateUserStage::AwaitCreatedUser,
                    Ok(Some(_)) => r == Action::<()>::Done(Err(AuthError::AlreadyExists))
                        && final(self).stage == CreateUserStage::Finished,
                    Err(m) => r == Action::<()>::Done(Err(AuthError::StorageError(m)))
                        && final(self).stage == CreateUserStage::Finished,
                },
                (CreateUserStage::AwaitCreatedUser, StoreAnswer::Created(created)) => match created {
                    Ok(u) => r matches Action::Call(StoreCall::InsertCredential(n)) && n.user_id
                        == u.id && is_salt(n.salt@) && n.password@ == password_digest(
                        old(self).password@,
                        n.salt@,
                    ) && final(self).stage == (CreateUserStage::AwaitCredentialInsert {
                        user_id: u.id,
                    }),
                    Err(m) => r == Action::<()>::Done(Err(AuthError::StorageError(m)))
                        && final(self).stage == CreateUserStage::Finished,
                },
                (
                    CreateUserStage::AwaitCredentialInsert { user_id },
                    StoreAnswer::Written(res),
                ) => match res {
                    Ok(()) => r == Action::<()>::Done(Ok(())) && final(self).stage
                        == CreateUserStage::Finished,
                    Err(m) => r == Action::<()>::Call(StoreCall::DeleteUser(user_id))
                        && final(self).stage == CreateUserStage::AwaitRollback
                        && final(self).failure == m,
                },
                (CreateUserStage::AwaitRollback, StoreAnswer::Written(_)) => r == Action::<()>::Done(
                    Err(AuthError::StorageError(old(self).failure)),
                ) && final(self).stage == CreateUserStage::Finished,
                _ => r == misfit::<()>() && final(self).stage == CreateUserStage::Finished,
            },
    {
        let stage = self.stage;
        self.stage = CreateUserStage::Finished;
        match (stage, answer) {
            (CreateUserStage::AwaitActingUser, StoreAnswer::User(found)) => match resolve_user(found) {
                Ok(u) => match authorize_create(&u, &self.username, &self.password) {
                    Ok(()) => {
                        self.stage = CreateUserStage::AwaitNickname;
                        Action::Call(StoreCall::UserByNickname(self.username.clone()))
                    },
                    Err(e) => Action::Done(Err(e)),
                },
                Err(e) => Action::Done(Err(e)),
            },
            (CreateUserStage::AwaitNickname, StoreAnswer::User(found)) => match check_nickname_free(found) {
                Ok(()) => {
                    self.stage = CreateUserStage::AwaitCreatedUser;
                    Action::Call(StoreCall::CreateUser(new_user(self.username.clone())))
                },
                Err(e) => Action::Done(Err(e)),
            },
            (CreateUserStage::AwaitCreatedUser, StoreAnswer::Created(created)) => {
                match credential_for(created, self.password.clone()) {
                    Ok(n) => {
                        self.stage = CreateUserStage::AwaitCredentialInsert { user_id: n.user_id };
                        Action::Call(StoreCall::InsertCredential(n))
                    },
                    Err(e) => Action::Done(Err(e)),
                }
            },
            (CreateUserStage::AwaitCredentialInsert { user_id }, StoreAnswer::Written(res)) => {
                match res {
                    Ok(()) => Action::Done(Ok(())),
                    Err(m) => {
                        self.failure = m;
                        self.stage = CreateUserStage::AwaitRollback;
                        Action::Call(StoreCall::DeleteUser(user_id))
                    },
                }
            },
            (CreateUserStage::AwaitRollback, StoreAnswer::Written(_)) => {
                Action::Done(Err(AuthError::StorageError(self.failure.clone())))
            },
            _ => Action::Done(Err(AuthError::InternalInconsistency)),
        }
    }
}

} // verus!
