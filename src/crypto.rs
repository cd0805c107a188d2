//! Password hashing and salt generation.

use sha2::Digest;
use vstd::prelude::*;

verus! {

/// The lowercase hex SHA-256 digest of the UTF-8 bytes of `text`.
pub uninterp spec fn sha256_hex_of(text: Seq<char>) -> Seq<char>;

/// The digest of a password under a salt: the password's characters are
/// fed first, then the salt's, so only their concatenation counts.
pub open spec fn password_digest(password: Seq<char>, salt: Seq<char>) -> Seq<char> {
    sha256_hex_of(password + salt)
}

/// A character of `[A-Za-z0-9]`.
pub open spec fn is_alphanumeric(c: char) -> bool {
    ('A' <= c && c <= 'Z') || ('a' <= c && c <= 'z') || ('0' <= c && c <= '9')
}

/// A character of `[0-9a-f]`.
pub open spec fn is_lower_hex(c: char) -> bool {
    ('0' <= c && c <= '9') || ('a' <= c && c <= 'f')
}

/// The shape of every salt: 32 alphanumeric characters.
pub open spec fn is_salt(s: Seq<char>) -> bool {
    s.len() == 32 && forall|i: int| 0 <= i < 32 ==> is_alphanumeric(#[trigger] s[i])
}

/// The shape of every digest: 64 lowercase hex digits.
pub open spec fn is_digest(s: Seq<char>) -> bool {
    s.len() == 64 && forall|i: int| 0 <= i < 64 ==> is_lower_hex(#[trigger] s[i])
}

/// Hashing is a function of the password and the salt alone: two calls on
/// the same inputs give the same digest.
pub proof fn lemma_hash_deterministic(password: Seq<char>, salt: Seq<char>, first: Seq<char>, second: Seq<char>)
    requires
        first == password_digest(password, salt),
        second == password_digest(password, salt),
    ensures
        first == second,
{
}

/// Relies on sha2's `Sha256` fed the password, then the salt (which digests
/// the bytes of both in turn, as it would their concatenation), and on the
/// `LowerHex` format of generic-array: two lowercase hex digits for each of
/// the 32 bytes of the digest.
#[verifier::external_body]
fn sha256_hex(password: &str, salt: &str) -> (r: String)
    ensures
        r@ == sha256_hex_of(password@ + salt@),
        is_digest(r@),
{
    let mut hasher = sha2::Sha256::new();
    hasher.update(password);
    hasher.update(salt);
    format!("{:x}", hasher.finalize())
}

/// Relies on rand's `thread_rng` sampled through `Alphanumeric`, which draws
/// each byte from `A-Z`, `a-z` and `0-9`; 32 of them are taken.
#[verifier::external_body]
fn random_alphanumeric() -> (r: String)
    ensures
        is_salt(r@),
{
    rand::Rng::sample_iter(rand::thread_rng(), &rand::distributions::Alphanumeric)
        .take(32)
        .map(char::from)
        .collect()
}

/// Hashes a password with a salt: the password is fed first, then the salt.
pub fn hash_password(password: String, salt: String) -> (r: String)
    ensures
        r@ == password_digest(password@, salt@),
        is_digest(r@),
{
    sha256_hex(password.as_str(), salt.as_str())
}

/// A fresh random salt of 32 alphanumeric characters.
pub fn generate_salt() -> (r: String)
    ensures
        is_salt(r@),
{
    random_alphanumeric()
}

} // verus!
