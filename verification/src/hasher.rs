//! The password hasher: salted Argon2 hashing and verification.
//!
//! A hash record is self-describing (algorithm, parameters, salt and digest
//! in one string), so verification needs nothing beyond the candidate
//! password and the record itself.

use argon2::password_hash::rand_core::OsRng;
use argon2::password_hash::{PasswordHash, PasswordHasher, PasswordVerifier, SaltString};
use argon2::Argon2;

use vstd::prelude::*;

verus! {

/// The outcome of checking a password against a stored hash record:
/// `Some(true)` when the password matches, `Some(false)` when it does not,
/// `None` when the record is structurally invalid for the verifier.
pub uninterp spec fn password_check(password: Seq<char>, hash: Seq<char>) -> Option<bool>;

/// Relies on argon2's `PasswordHash::new` and `Argon2::verify_password`:
/// both are deterministic in the candidate password and the stored record
/// (salt and parameters live inside the record), so the outcome is a
/// function of the two strings alone. A mismatched password reports
/// `Error::Password`, which maps to `Some(false)`; every other failure
/// maps to `None`.
#[verifier::external_body]
pub(crate) fn verify_password(password: &str, hash: &str) -> (r: Option<bool>)
    ensures
        r == password_check(password@, hash@),
{
    let parsed = match PasswordHash::new(hash) {
        Ok(p) => p,
        Err(_) => return None,
    };
    match Argon2::default().verify_password(password.as_bytes(), &parsed) {
        Ok(()) => Some(true),
        Err(argon2::password_hash::Error::Password) => Some(false),
        Err(_) => None,
    }
}

/// Relies on argon2's `Argon2::hash_password` with a fresh `OsRng` salt:
/// whatever salt is drawn, the produced record is a PHC string that
/// verifies against the password it was made from.
#[verifier::external_body]
pub(crate) fn hash_password(password: &str) -> (r: Option<String>)
    ensures
        r matches Some(h) ==> password_check(password@, h@) == Some(true),
{
    let salt = SaltString::generate(&mut OsRng);
    match Argon2::default().hash_password(password.as_bytes(), &salt) {
        Ok(h) => Some(h.to_string()),
        Err(_) => None,
    }
}

} // verus!
