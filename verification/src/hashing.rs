//! One-way salted password hashing and verification.
//!
//! The memory-hard hash itself comes from the argon2 crate; its results
//! are self-describing PHC strings (algorithm id, salt and digest encoded
//! together). Two spec names stand for what the crate computes: whether a
//! stored string parses as a PHC string, and whether a password matches
//! one. Everything around the two calls is verified against those names.

use vstd::prelude::*;

use crate::errors::ApiError;
use crate::errors::ErrorKind;

verus! {

/// Whether a stored hash string is a well-formed PHC string. Names the
/// success of `argon2::password_hash::phc::PasswordHash::new`, which
/// depends on the string alone.
pub uninterp spec fn phc_valid(hash: Seq<char>) -> bool;

/// Whether the argon2 function accepts the password against a stored PHC
/// string. Names the success of `argon2::Argon2::verify_password` (with
/// the parameters the string itself carries), which depends on the two
/// arguments alone.
pub uninterp spec fn argon_matches(password: Seq<char>, hash: Seq<char>) -> bool;

/// The three ways a raw password check can come out.
pub enum HashCheck {
    /// The stored string parses and the password matches it.
    Match,
    /// The stored string parses and the password does not match it.
    Mismatch,
    /// The stored string is not a well-formed PHC string.
    BadHash,
}

/// Relies on `Argon2::default().hash_password`, which salts with fresh
/// randomness: on success the returned PHC string parses, and verifying
/// the same password against it succeeds. The salt makes the string
/// itself unpredictable, so nothing more is stated of it.
#[verifier::external_body]
fn argon2_hash_raw(password: &str) -> (r: Option<String>)
    ensures
        r matches Some(h) ==> phc_valid(h@),
        r matches Some(h) ==> argon_matches(password@, h@),
{
    let argon2 = argon2::Argon2::default();
    match argon2::password_hash::PasswordHasher::hash_password(&argon2, password.as_bytes()) {
        Ok(h) => Some(h.to_string()),
        Err(_) => None,
    }
}

/// Relies on `PasswordHash::new` (PHC parsing, a function of the string
/// alone) and `Argon2::verify_password` (a function of password and
/// parsed string alone): the outcome reports exactly which of the two
/// rejected.
#[verifier::external_body]
fn argon2_check_raw(password: &str, hash: &str) -> (r: HashCheck)
    ensures
        (r is BadHash) == !phc_valid(hash@),
        phc_valid(hash@) ==> ((r is Match) == argon_matches(password@, hash@)),
        phc_valid(hash@) ==> ((r is Mismatch) == !argon_matches(password@, hash@)),
{
    let parsed = match argon2::password_hash::phc::PasswordHash::new(hash) {
        Ok(p) => p,
        Err(_) => return HashCheck::BadHash,
    };
    let argon2 = argon2::Argon2::default();
    match argon2::password_hash::PasswordVerifier::verify_password(&argon2, password.as_bytes(), &parsed) {
        Ok(()) => HashCheck::Match,
        Err(_) => HashCheck::Mismatch,
    }
}

/// What verifying a password against a stored hash string decides:
/// a string that does not parse is an internal fault (the store is
/// corrupt, not the caller), a parsing string either matches or signals
/// a bad credential.
pub open spec fn verify_outcome(password: Seq<char>, hash: Seq<char>) -> Result<bool, ErrorKind> {
    if !phc_valid(hash) {
        Err(ErrorKind::InternalError)
    } else if argon_matches(password, hash) {
        Ok(true)
    } else {
        Err(ErrorKind::InvalidCredential)
    }
}

/// Hash a plaintext password into a fresh self-describing PHC string.
/// Hashing failure (the system randomness source failing, or a password
/// beyond the algorithm's length bound) is a fatal internal error.
pub fn argon_hash(password: &str) -> (r: Result<String, ApiError>)
    ensures
        r matches Ok(h) ==> phc_valid(h@) && argon_matches(password@, h@),
        r matches Err(e) ==> e.kind == ErrorKind::InternalError,
{
    match argon2_hash_raw(password) {
        Some(h) => Ok(h),
        None => Err(ApiError::new(ErrorKind::InternalError, "Hashing error")),
    }
}

/// Check a plaintext password against a stored hash string. A mismatch
/// is a bad credential; a stored string that does not even parse is an
/// internal fault. Both are rejections, but callers may phrase their
/// messages differently.
pub fn argon_verify(password: &str, hash: &str) -> (r: Result<bool, ApiError>)
    ensures
        r matches Ok(b) ==> verify_outcome(password@, hash@) == Ok::<bool, ErrorKind>(b),
        r matches Err(e) ==> verify_outcome(password@, hash@) == Err::<bool, ErrorKind>(e.kind),
        (r is Ok) == (phc_valid(hash@) && argon_matches(password@, hash@)),
{
    match argon2_check_raw(password, hash) {
        HashCheck::Match => Ok(true),
        HashCheck::Mismatch => Err(ApiError::new(ErrorKind::InvalidCredential, "Incorrect password")),
        HashCheck::BadHash => Err(ApiError::new(ErrorKind::InternalError, "Internal error")),
    }
}

/// Law: a hash freshly produced for a password verifies against that
/// password. `argon_hash` guarantees its result parses and matches the
/// hashed password; on such a pair, verification accepts.
pub proof fn lemma_fresh_hash_verifies(password: Seq<char>, hash: Seq<char>)
    ensures
        phc_valid(hash) && argon_matches(password, hash) ==> verify_outcome(password, hash)
            == Ok::<bool, ErrorKind>(true),
{
}

} // verus!
