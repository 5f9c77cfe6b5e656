use vstd::prelude::*;

verus! {

/// What `bcrypt::verify` returns for a password and a stored hash: `None` where
/// the hash is malformed, else whether the password matches it.
pub uninterp spec fn bcrypt_verdict(password: Seq<char>, hash: Seq<char>) -> Option<bool>;

/// Failure of the password hasher.
#[derive(Debug, Clone, Copy, PartialEq, Eq, Structural)]
pub enum HashingError {
    /// No hash could be made (the system's random source failed).
    Unavailable,
    /// The cost factor lies outside what bcrypt allows.
    CostNotAllowed,
    /// The stored hash is not a bcrypt hash.
    Malformed,
}

/// The cost factor bcrypt uses by default.
pub const DEFAULT_HASH_COST: u32 = 12;

/// The least cost factor bcrypt allows.
pub const MIN_HASH_COST: u32 = 4;

/// The greatest cost factor bcrypt allows.
pub const MAX_HASH_COST: u32 = 31;

/// Relies on `bcrypt::hash` at a cost bcrypt allows: a fresh random salt, and a
/// 60-character hash string that `bcrypt::verify` accepts for the same password;
/// it fails only where the system's random source does.
#[verifier::external_body]
fn bcrypt_hash(password: &str, cost: u32) -> (r: Result<String, HashingError>)
    requires
        MIN_HASH_COST <= cost <= MAX_HASH_COST,
    ensures
        r is Ok ==> r->Ok_0@.len() == 60 && bcrypt_verdict(password@, r->Ok_0@) == Some(true),
        r is Err ==> r->Err_0 == HashingError::Unavailable,
{
    bcrypt::hash(password, cost).map_err(|_| HashingError::Unavailable)
}

/// Relies on `bcrypt::verify`: a constant-time check of a password against a hash.
#[verifier::external_body]
fn bcrypt_verify(password: &str, hash: &str) -> (r: Result<bool, HashingError>)
    ensures
        r is Ok ==> bcrypt_verdict(password@, hash@) == Some(r->Ok_0),
        r is Err ==> bcrypt_verdict(password@, hash@) is None && r->Err_0 == HashingError::Malformed,
{
    bcrypt::verify(password, hash).map_err(|_| HashingError::Malformed)
}

/// What checking `password` against `hash` gives.
pub open spec fn verify_outcome(password: Seq<char>, hash: Seq<char>) -> Result<bool, HashingError> {
    match bcrypt_verdict(password, hash) {
        Some(b) => Ok(b),
        None => Err(HashingError::Malformed),
    }
}

/// Whether `hash` is a well-formed hash that accepts `password`.
pub open spec fn hashed_from(password: Seq<char>, hash: Seq<char>) -> bool {
    hash.len() > 0 && bcrypt_verdict(password, hash) == Some(true)
}

/// Hashes a password with a fresh salt at the given cost factor.
pub fn hash_password(password: &str, cost: u32) -> (r: Result<String, HashingError>)
    ensures
        r matches Ok(h) ==> hashed_from(password@, h@) && h@.len() == 60,
        !(MIN_HASH_COST <= cost <= MAX_HASH_COST) ==> r == Err::<String, HashingError>(HashingError::CostNotAllowed),
        (MIN_HASH_COST <= cost <= MAX_HASH_COST && r is Err) ==> r == Err::<String, HashingError>(HashingError::Unavailable),
{
    if cost < MIN_HASH_COST || cost > MAX_HASH_COST {
        return Err(HashingError::CostNotAllowed);
    }
    bcrypt_hash(password, cost)
}

/// Checks a password against a stored hash.
pub fn verify_password(password: &str, hash: &str) -> (r: Result<bool, HashingError>)
    ensures
        r == verify_outcome(password@, hash@),
{
    bcrypt_verify(password, hash)
}

/// A password is accepted by every hash made of it.
pub proof fn law_hash_accepts_its_password(password: Seq<char>, hash: Seq<char>)
    requires
        hashed_from(password, hash),
    ensures
        verify_outcome(password, hash) == Ok::<bool, HashingError>(true),
{
}

} // verus!
