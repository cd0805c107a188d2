//! User records, as the user directory holds them.

use vstd::prelude::*;

verus! {

/// A user of the directory. `id` is assigned by the store.
#[derive(Clone, Debug, PartialEq, Eq)]
pub struct UserModel {
    pub id: i32,
    pub nickname: String,
    pub admin: bool,
}

/// The public face of a user: the admin flag is left out.
#[derive(Clone, Debug, PartialEq, Eq)]
pub struct UserMessage {
    pub id: i32,
    pub nickname: String,
}

/// A user row still to be created; the store assigns its id.
#[derive(Clone, Debug, PartialEq, Eq)]
pub struct NewUser {
    pub nickname: String,
    pub admin: bool,
}

impl UserModel {
    pub fn into_message(&self) -> (r: UserMessage)
        ensures
            r.id == self.id,
            r.nickname@ == self.nickname@,
    {
        UserMessage { id: self.id, nickname: self.nickname.clone() }
    }
}

/// The messages of a list of users, in the same order.
pub fn into_messages(users: &Vec<UserModel>) -> (r: Vec<UserMessage>)
    ensures
        r@.len() == users@.len(),
        forall|i: int|
            0 <= i < users@.len() ==> (#[trigger] r@[i]).id == users@[i].id && r@[i].nickname@
                == users@[i].nickname@,
{
    let mut r: Vec<UserMessage> = Vec::new();
    let mut i: usize = 0;
    while i < users.len()
        invariant
            i <= users@.len(),
            r@.len() == i,
            forall|j: int|
                0 <= j < i ==> (#[trigger] r@[j]).id == users@[j].id && r@[j].nickname@
                    == users@[j].nickname@,
        decreases users@.len() - i,
    {
        r.push(users[i].into_message());
        i = i + 1;
    }
    r
}

} // verus!
