//! Password hashing and verification.
//!
//! A plaintext password is turned into a self-describing encoded hash string
//! (algorithm parameters, a fresh random salt, and the digest), and later
//! checked against such a string. Verification fails closed: a hash string
//! that does not parse, or a digest that does not match, both come back as
//! a plain `false`, never as an escape past the check.

use argon2::PasswordHasher;
use argon2::PasswordVerifier;
use vstd::prelude::*;

verus! {

/// Whether the password-hashing scheme accepts `password` against the encoded
/// hash string `hash`. This is exactly what a verification call returns: it
/// depends on the two arguments alone, since the salt and all parameters are
/// embedded in the hash string itself.
pub uninterp spec fn verifies(password: Seq<char>, hash: Seq<char>) -> bool;

/// What a freshly derived hash string promises: it verifies the password it
/// was derived from, and no other password.
pub open spec fn fresh_hash_of(password: Seq<char>, hash: Seq<char>) -> bool {
    &&& verifies(password, hash)
    &&& forall|other: Seq<char>| other != password ==> !verifies(other, hash)
}

/// The declared shape of the password-hashing error, so that the hashing
/// wrapper can hand it back for the caller to map.
#[verifier::external_type_specification]
#[verifier::external_body]
pub struct ExPasswordHashError(argon2::password_hash::Error);

/// Relies on `argon2::Argon2::hash_password` (memory-hard digest over a fresh
/// random salt, encoded as a PHC string) and on the scheme's verification
/// semantics: every hash string it returns is accepted for the hashed
/// password, and — the collision resistance the scheme is designed for — for
/// no other password.
#[verifier::external_body]
fn argon2_hash(password: &str) -> (r: Result<String, argon2::password_hash::Error>)
    ensures
        r matches Ok(h) ==> fresh_hash_of(password@, h@),
{
    match argon2::Argon2::default().hash_password(password.as_bytes()) {
        Ok(h) => Ok(h.to_string()),
        Err(e) => Err(e),
    }
}

/// Relies on `argon2::Argon2::verify_password` over a PHC-encoded hash
/// string: deterministic in the password and the hash string, and failing
/// closed — a hash that does not parse or a digest mismatch both yield an
/// error, reported here as `false`.
#[verifier::external_body]
fn argon2_verify(password: &str, hash: &str) -> (r: bool)
    ensures
        r == verifies(password@, hash@),
{
    argon2::Argon2::default().verify_password(password.as_bytes(), hash).is_ok()
}

/// Derives an encoded hash string for `password` with a fresh random salt.
/// On success the returned string verifies `password` and no other password;
/// a failure of the underlying digest computation yields `None`, for the
/// caller to surface as its hashing error.
pub fn hash(password: &str) -> (r: Option<String>)
    ensures
        r matches Some(h) ==> fresh_hash_of(password@, h@),
{
    match argon2_hash(password) {
        Ok(h) => Some(h),
        Err(_) => None,
    }
}

/// Checks `password` against an encoded hash string, failing closed.
pub fn verify(password: &str, hash: &str) -> (r: bool)
    ensures
        r == verifies(password@, hash@),
{
    argon2_verify(password, hash)
}

/// A fresh hash verifies exactly the password it was derived from: `verify`
/// accepts that password against it, and rejects every other password.
pub proof fn lemma_hash_verifies_only_its_password(
    password: Seq<char>,
    other: Seq<char>,
    hash: Seq<char>,
)
    requires
        fresh_hash_of(password, hash),
    ensures
        verifies(password, hash),
        other != password ==> !verifies(other, hash),
{
}

} // verus!
