//! Bearer tokens: signed claims naming a user, keyed by a shared secret.

use vstd::prelude::*;

verus! {

/// jsonwebtoken's error, carried only until it is mapped to a `TokenError`.
#[verifier::external_type_specification]
#[verifier::external_body]
pub struct ExJwtError(jsonwebtoken::errors::Error);

/// The token that jsonwebtoken issues, with the default HS256 header, for the
/// claims `{"exp": exp, "user_id": user_id}` signed with `secret`.
pub uninterp spec fn signed_token(user_id: i32, exp: i32, secret: Seq<char>) -> Seq<char>;

/// What jsonwebtoken reads from `token` under `secret` (HS256, expiry not
/// checked): `None` where the token is refused, else the integer values of
/// the `user_id` and `exp` claims, each `None` where absent or not an integer.
pub uninterp spec fn token_fields(token: Seq<char>, secret: Seq<char>) -> Option<(Option<i64>, Option<i64>)>;

/// Relies on `jsonwebtoken::encode` with the default header (HS256) and a
/// key made by `EncodingKey::from_secret`. Its only failures are a key whose
/// family differs from the header's algorithm, a value that JSON cannot
/// serialise, and a signing error of a non-HMAC algorithm; none of them can
/// arise here, so the call always succeeds. `decode` (see `decode_token`)
/// reads the token back under the same secret: header, algorithm and
/// signature match, and the payload is the JSON object of the two claims.
#[verifier::external_body]
fn encode_token(user_id: i32, exp: i32, secret: &str) -> (r: Result<String, jsonwebtoken::errors::Error>)
    ensures
        r is Ok,
        r is Ok ==> r->Ok_0@ == signed_token(user_id, exp, secret@),
        r is Ok ==> token_fields(r->Ok_0@, secret@) == Some((Some(user_id as i64), Some(exp as i64))),
{
    let claims = std::collections::BTreeMap::from([("user_id", user_id), ("exp", exp)]);
    jsonwebtoken::encode(
        &jsonwebtoken::Header::default(),
        &claims,
        &jsonwebtoken::EncodingKey::from_secret(secret.as_bytes()),
    )
}

/// Relies on `jsonwebtoken::decode` with `Validation::new(HS256)`, with
/// `validate_exp` off and no required claims. It checks the three-part
/// shape, the header's algorithm and the signature; the claims are then read
/// as a JSON object, and no claim is checked against the clock. A token that
/// `encode` made for the same secret passes and gives back both claims.
#[verifier::external_body]
fn decode_token(token: &str, secret: &str) -> (r: Result<(Option<i64>, Option<i64>), jsonwebtoken::errors::Error>)
    ensures
        r is Ok <==> token_fields(token@, secret@) is Some,
        r is Ok ==> token_fields(token@, secret@) == Some(r->Ok_0),
        forall|user_id: i32, exp: i32|
            #![trigger signed_token(user_id, exp, secret@)]
            token@ == signed_token(user_id, exp, secret@) ==> (r is Ok && r->Ok_0 == (
                Some(user_id as i64),
                Some(exp as i64),
            )),
{
    let mut validation = jsonwebtoken::Validation::new(jsonwebtoken::Algorithm::HS256);
    validation.validate_exp = false;
    validation.required_spec_claims.clear();
    let key = jsonwebtoken::DecodingKey::from_secret(secret.as_bytes());
    let data = jsonwebtoken::decode::<std::collections::BTreeMap<String, serde_json::Value>>(token, &key, &validation)?;
    let user_id = data.claims.get("user_id").and_then(serde_json::Value::as_i64);
    let exp = data.claims.get("exp").and_then(serde_json::Value::as_i64);
    Ok((user_id, exp))
}

/// The identity a token carries: the user's id and the intended expiry.
#[derive(Clone, Copy, Debug, PartialEq, Eq, Structural)]
pub struct Claims {
    pub user_id: i32,
    pub exp: i32,
}

/// Why a token could not be issued or read.
#[derive(Clone, Copy, Debug, PartialEq, Eq, Structural)]
pub enum TokenError {
    /// The token could not be produced.
    Encoding,
    /// Malformed, wrongly signed, or without well-typed claims.
    Invalid,
}

/// Whether `v` is within the range of `i32`.
pub open spec fn fits_i32(v: i64) -> bool {
    i32::MIN <= v <= i32::MAX
}

/// The claims held in the fields read from a token: both present and within
/// the range of `i32`.
pub open spec fn claims_of_fields(fields: (Option<i64>, Option<i64>)) -> Option<Claims> {
    match fields {
        (Some(u), Some(e)) => if fits_i32(u) && fits_i32(e) {
            Some(Claims { user_id: u as i32, exp: e as i32 })
        } else {
            None
        },
        _ => None,
    }
}

/// The claims that `token` carries under `secret`, if it is valid.
pub open spec fn token_claims(token: Seq<char>, secret: Seq<char>) -> Option<Claims> {
    match token_fields(token, secret) {
        Some(fields) => claims_of_fields(fields),
        None => None,
    }
}

impl Claims {
    /// Reads claims from the fields of a verified token.
    pub fn from_fields(fields: (Option<i64>, Option<i64>)) -> (r: Option<Claims>)
        ensures
            r == claims_of_fields(fields),
    {
        match fields {
            (Some(u), Some(e)) => {
                if i32::MIN as i64 <= u && u <= i32::MAX as i64 && i32::MIN as i64 <= e && e
                    <= i32::MAX as i64 {
                    Some(Claims { user_id: u as i32, exp: e as i32 })
                } else {
                    None
                }
            },
            _ => None,
        }
    }

    /// Checks the token's signature against `secret` and reads its claims.
    /// The expiry is carried but not enforced. A token issued for claims
    /// with the same secret gives those claims back.
    pub fn from_jwt(token: String, secret: String) -> (r: Result<Claims, TokenError>)
        ensures
            r == (match token_claims(token@, secret@) {
                Some(c) => Ok(c),
                None => Err(TokenError::Invalid),
            }),
            forall|c: Claims|
                #![trigger signed_token(c.user_id, c.exp, secret@)]
                token@ == signed_token(c.user_id, c.exp, secret@) ==> r == Ok::<Claims, TokenError>(c),
    {
        match decode_token(token.as_str(), secret.as_str()) {
            Ok(fields) => match Claims::from_fields(fields) {
                Some(c) => Ok(c),
                None => Err(TokenError::Invalid),
            },
            Err(_) => Err(TokenError::Invalid),
        }
    }

    /// Issues a token for these claims, signed with `secret`.
    pub fn to_jwt(&self, secret: String) -> (r: Result<String, TokenError>)
        ensures
            r matches Ok(t) && t@ == signed_token(self.user_id, self.exp, secret@) && token_claims(
                t@,
                secret@,
            ) == Some(*self),
    {
        match encode_token(self.user_id, self.exp, secret.as_str()) {
            Ok(t) => Ok(t),
            Err(_) => Err(TokenError::Encoding),
        }
    }
}

} // verus!
