use jsonwebtoken::errors::ErrorKind;
use jsonwebtoken::{decode, encode, DecodingKey, EncodingKey, Header, Validation};
use serde_json::Value;
use std::collections::HashMap;
use vstd::prelude::*;

use crate::models::Claims;

verus! {

/// What `jsonwebtoken::decode` (HS256, expiry left unchecked) yields for a token
/// under a secret: its subject, company, user id and expiry, or why it failed.
pub uninterp spec fn jwt_decoded(token: Seq<char>, secret: Seq<char>) -> Result<(Seq<char>, Seq<char>, Seq<char>, u64), TokenError>;

/// Why a token was not accepted.
#[derive(Debug, Clone, Copy, PartialEq, Eq, Structural)]
pub enum TokenError {
    /// The signature does not match the payload under the secret.
    InvalidSignature,
    /// The token was sound but its expiry has passed.
    Expired,
    /// The token cannot be parsed, or its payload lacks a claim.
    Malformed,
    /// No token could be signed.
    SigningFailed,
}

/// Relies on `jsonwebtoken::encode` with the default header (HS256) and an HMAC
/// key, which cannot fail: the token it returns decodes under the same secret to
/// the same claims.
#[verifier::external_body]
fn jwt_encode(claims: &Claims, secret: &str) -> (r: Result<String, TokenError>)
    ensures
        r is Ok,
        r is Ok ==> (jwt_decoded(r->Ok_0@, secret@) is Ok && jwt_decoded(r->Ok_0@, secret@)->Ok_0 == claims.model()),
{
    let mut m = serde_json::Map::new();
    m.insert("sub".to_string(), Value::from(claims.sub.as_str()));
    m.insert("company".to_string(), Value::from(claims.company.as_str()));
    m.insert("user_id".to_string(), Value::from(claims.user_id.as_str()));
    m.insert("exp".to_string(), Value::from(claims.exp));
    let key = EncodingKey::from_secret(secret.as_bytes());
    encode(&Header::default(), &m, &key).map_err(|_| TokenError::SigningFailed)
}

/// Relies on `jsonwebtoken::decode` (HS256, signature checked, expiry not): the
/// claims of a sound token, or why it is not one.
#[verifier::external_body]
fn jwt_decode(token: &str, secret: &str) -> (r: Result<Claims, TokenError>)
    ensures
        r is Ok ==> (jwt_decoded(token@, secret@) is Ok && jwt_decoded(token@, secret@)->Ok_0 == r->Ok_0.model()),
        r is Err ==> (jwt_decoded(token@, secret@) is Err && jwt_decoded(token@, secret@)->Err_0 == r->Err_0),
        r is Err ==> r->Err_0 == TokenError::InvalidSignature || r->Err_0 == TokenError::Malformed,
{
    let mut v = Validation::default();
    v.validate_exp = false;
    let key = DecodingKey::from_secret(secret.as_bytes());
    let m = decode::<HashMap<String, Value>>(token, &key, &v).map_err(|e| match e.kind() {
        ErrorKind::InvalidSignature => TokenError::InvalidSignature,
        _ => TokenError::Malformed,
    })?.claims;
    let text = |k: &str| m.get(k).and_then(Value::as_str).map(String::from);
    match (text("sub"), text("company"), text("user_id"), m.get("exp").and_then(Value::as_u64)) {
        (Some(sub), Some(company), Some(user_id), Some(exp)) => Ok(Claims { sub, company, user_id, exp }),
        _ => Err(TokenError::Malformed),
    }
}

/// Whether `token` is a sound token under `secret` that carries `claims`.
pub open spec fn issued_for(token: Seq<char>, secret: Seq<char>, claims: (Seq<char>, Seq<char>, Seq<char>, u64)) -> bool {
    jwt_decoded(token, secret) == Ok::<(Seq<char>, Seq<char>, Seq<char>, u64), TokenError>(claims)
}

/// What checking `token` under `secret` at time `now` gives: the user id of a
/// sound token whose expiry is still ahead, `Expired` for a sound token whose
/// expiry has come, and otherwise why it could not be decoded.
pub open spec fn token_outcome(token: Seq<char>, secret: Seq<char>, now: u64) -> Result<Seq<char>, TokenError> {
    match jwt_decoded(token, secret) {
        Ok(c) => if now < c.3 { Ok(c.2) } else { Err(TokenError::Expired) },
        Err(e) => Err(e),
    }
}

/// Signs `claims` into a token under `secret`.
pub fn issue_token(claims: &Claims, secret: &str) -> (r: Result<String, TokenError>)
    ensures
        r is Ok,
        r is Ok ==> issued_for(r->Ok_0@, secret@, claims.model()),
{
    jwt_encode(claims, secret)
}

/// Decides on decoded claims at time `now`: the user id while the expiry is
/// ahead, `Expired` once it is reached; a decoding failure is passed on.
pub fn check_claims(decoded: Result<Claims, TokenError>, now: u64) -> (r: Result<String, TokenError>)
    ensures
        match decoded {
            Ok(c) => if now < c.exp {
                r is Ok && r->Ok_0@ == c.user_id@
            } else {
                r == Err::<String, TokenError>(TokenError::Expired)
            },
            Err(e) => r == Err::<String, TokenError>(e),
        },
{
    match decoded {
        Ok(c) => if now < c.exp {
            Ok(c.user_id)
        } else {
            Err(TokenError::Expired)
        },
        Err(e) => Err(e),
    }
}

/// Checks `token` under `secret` at time `now` and returns the user id it carries.
pub fn decrypt_token(token: &str, secret: &str, now: u64) -> (r: Result<String, TokenError>)
    ensures
        r is Ok ==> (token_outcome(token@, secret@, now) is Ok && token_outcome(token@, secret@, now)->Ok_0 == r->Ok_0@),
        r is Err ==> (token_outcome(token@, secret@, now) is Err && token_outcome(token@, secret@, now)->Err_0 == r->Err_0),
        r is Err ==> r->Err_0 != TokenError::SigningFailed,
{
    check_claims(jwt_decode(token, secret), now)
}

/// A token is worth the user id it was issued for until its expiry.
pub proof fn law_token_round_trip(
    token: Seq<char>,
    secret: Seq<char>,
    claims: (Seq<char>, Seq<char>, Seq<char>, u64),
    now: u64,
)
    requires
        issued_for(token, secret, claims),
        now < claims.3,
    ensures
        token_outcome(token, secret, now) == Ok::<Seq<char>, TokenError>(claims.2),
{
}

/// From its expiry on, a token is refused as expired.
pub proof fn law_token_expires(
    token: Seq<char>,
    secret: Seq<char>,
    claims: (Seq<char>, Seq<char>, Seq<char>, u64),
    now: u64,
)
    requires
        issued_for(token, secret, claims),
        now >= claims.3,
    ensures
        token_outcome(token, secret, now) == Err::<Seq<char>, TokenError>(TokenError::Expired),
{
}

} // verus!
