//! The credential verifier: password hashing and verification.
//!
//! Hashing uses a memory-hard algorithm with a fresh random salt per call,
//! so hashing the same secret twice yields different hash strings, while
//! verification of a given hash against a given candidate is
//! deterministic. Both operations are CPU-expensive by design; callers on
//! a latency-sensitive path must dispatch them to an execution context
//! reserved for blocking work.

use vstd::prelude::*;

use argon2::{PasswordHash, PasswordHasher, PasswordVerifier};

use crate::domain::password::Password;

verus! {

/// Failure of a credential-verifier operation. A malformed stored hash
/// (data corruption) is distinct from a genuine mismatch, which is an
/// expected, non-exceptional result.
#[derive(Debug, Clone, Copy, PartialEq, Eq, Structural)]
pub enum PasswordHashError {
    MalformedHash,
    UnexpectedError,
}

/// Whether a string is a well-formed password-hash string.
pub uninterp spec fn is_password_hash(h: Seq<char>) -> bool;

/// Whether a stored hash verifies against a candidate secret. A function
/// of the two strings alone: the salt and the parameters live inside the
/// hash string.
pub uninterp spec fn hash_matches(h: Seq<char>, candidate: Seq<char>) -> bool;

/// Relies on argon2's `PasswordHasher::hash_password`, which salts with a
/// fresh random value per call: on success the produced string is a
/// well-formed hash that verifies against the hashed secret. Two calls on
/// the same secret may well return different strings.
#[verifier::external_body]
fn argon2_hash_password(password: &str) -> (r: Result<String, PasswordHashError>)
    ensures
        r matches Ok(h) ==> is_password_hash(h@) && hash_matches(h@, password@),
        r matches Err(e) ==> e == PasswordHashError::UnexpectedError,
{
    match argon2::Argon2::default().hash_password(password.as_bytes()) {
        Ok(h) => Ok(h.to_string()),
        Err(_) => Err(PasswordHashError::UnexpectedError),
    }
}

/// Relies on `PasswordHash::new` (well-formedness of the stored hash
/// string) and argon2's `PasswordVerifier::verify_password` (deterministic
/// in the hash and the candidate).
#[verifier::external_body]
fn argon2_verify_password(hash: &str, candidate: &str) -> (r: Result<bool, PasswordHashError>)
    ensures
        r matches Ok(b) ==> is_password_hash(hash@) && b == hash_matches(hash@, candidate@),
        r is Err ==> !is_password_hash(hash@),
        r matches Err(e) ==> e == PasswordHashError::MalformedHash,
{
    match PasswordHash::new(hash) {
        Ok(parsed) => Ok(
            argon2::Argon2::default().verify_password(candidate.as_bytes(), &parsed).is_ok(),
        ),
        Err(_) => Err(PasswordHashError::MalformedHash),
    }
}

/// Hashes a secret with a fresh random salt. Not idempotent: a second call
/// on the same secret yields a different string; every string it ever
/// produced for a secret verifies against that secret.
pub fn compute_password_hash(password: &Password) -> (r: Result<String, PasswordHashError>)
    ensures
        r matches Ok(h) ==> is_password_hash(h@) && hash_matches(h@, password@),
        r matches Err(e) ==> e == PasswordHashError::UnexpectedError,
{
    argon2_hash_password(password.as_ref())
}

/// Verifies a candidate secret against a stored hash. A malformed stored
/// hash is reported apart; a mismatch is the `Ok(false)` result.
pub fn verify_password_hash(expected_password_hash: &str, password_candidate: &Password) -> (r:
    Result<bool, PasswordHashError>)
    ensures
        r matches Ok(b) ==> is_password_hash(expected_password_hash@) && b == hash_matches(
            expected_password_hash@,
            password_candidate@,
        ),
        r is Err ==> !is_password_hash(expected_password_hash@),
        r matches Err(e) ==> e == PasswordHashError::MalformedHash,
{
    argon2_verify_password(expected_password_hash, password_candidate.as_ref())
}

} // verus!
