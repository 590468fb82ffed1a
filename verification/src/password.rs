//! The credential verifier: a deliberately slow, salted one-way digest of
//! each password, checked by recomputation. The hashing itself is done by
//! `bcrypt` behind trusted wrappers; what a digest accepts is named here
//! and every caller's contract speaks of that name.

use vstd::prelude::*;

verus! {

/// Whether `bcrypt` verification accepts `password` against `digest`:
/// true exactly when the digest parses and re-hashing the password with
/// the salt and cost embedded in it reproduces the digest. Verification
/// re-computes deterministically, so this is a function of the two
/// arguments alone; hashing is salted, so no spec function of the password
/// gives the digest itself.
pub uninterp spec fn bcrypt_accepts(password: Seq<char>, digest: Seq<char>) -> bool;

/// Relies on `bcrypt::verify`: it parses the digest, re-hashes the
/// password with the embedded salt and cost, and compares. A digest that
/// does not parse is an error, counted here as a non-match, so malformed
/// stored digests fail closed instead of crashing.
#[verifier::external_body]
fn bcrypt_verify(password: &str, digest: &str) -> (r: bool)
    ensures
        r == bcrypt_accepts(password@, digest@),
{
    bcrypt::verify(password, digest).unwrap_or(false)
}

/// Relies on `bcrypt::hash` with `DEFAULT_COST`: the salt is drawn fresh
/// from the OS, so nothing relates two digests of one password, but any
/// digest it returns verifies against the password it was made from.
#[verifier::external_body]
fn bcrypt_hash(password: &str) -> (r: Option<String>)
    ensures
        r matches Some(d) ==> bcrypt_accepts(password@, d@),
{
    bcrypt::hash(password, bcrypt::DEFAULT_COST).ok()
}

/// Checks a plaintext password against a stored digest; a malformed digest
/// fails closed.
pub fn verify_password(password: &str, digest: &str) -> (r: bool)
    ensures
        r == bcrypt_accepts(password@, digest@),
{
    bcrypt_verify(password, digest)
}

/// Produces a salted one-way digest of `password` that `verify_password`
/// accepts against it. Hashing draws randomness, so two calls on the same
/// password yield different digests.
pub fn hash_password(password: &str) -> (r: Result<String, crate::errors::ApiError>)
    ensures
        r matches Ok(d) ==> bcrypt_accepts(password@, d@),
        r matches Err(e) ==> e == crate::errors::ApiError::InternalError,
{
    match bcrypt_hash(password) {
        Some(d) => Ok(d),
        None => Err(crate::errors::ApiError::InternalError),
    }
}

} // verus!
