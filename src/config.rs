//! Process-wide configuration, read once at start and never changed.

use vstd::prelude::*;

verus! {

/// Where the store lives, the secret that signs bearer tokens, and whether
/// a token's expiry is enforced (by default it is not: tokens stay valid for
/// as long as the secret does).
#[derive(Clone, Debug)]
pub struct Config {
    pub database_url: String,
    pub jwt_secret: String,
    pub enforce_expiry: bool,
}

} // verus!
