//! Password hashing and checking, delegated to Argon2.
//!
//! The check's outcome is abstracted as `password_matches`, so that the
//! contracts of login and registration can pin down exactly when credentials
//! are accepted without restating the hash algorithm.

use vstd::prelude::*;

verus! {

/// Whether Argon2 accepts this password against this hash string. The salt
/// and the parameters live inside the hash string, so the outcome is a
/// function of the two arguments alone; it is false whenever the hash string
/// does not parse as a PHC-formatted Argon2 hash.
pub uninterp spec fn password_matches(password: Seq<char>, hash: Seq<char>) -> bool;

/// Relies on argon2's PasswordVerifier::verify_password: deterministic in the
/// password and the hash string, true exactly when the hash was derived from
/// the password.
#[verifier::external_body]
pub fn verify_password(password: &str, hash: &str) -> (r: bool)
    ensures
        r == password_matches(password@, hash@),
{
    match argon2::password_hash::PasswordHash::new(hash) {
        Ok(parsed) => argon2::PasswordVerifier::verify_password(
            &argon2::Argon2::default(),
            password.as_bytes(),
            &parsed,
        ).is_ok(),
        Err(_) => false,
    }
}

/// Relies on argon2's PasswordHasher::hash_password with a fresh random salt:
/// whatever salt was drawn, verifying the same password against the returned
/// hash succeeds.
#[verifier::external_body]
pub fn hash_password(password: &str) -> (r: Option<String>)
    ensures
        r matches Some(h) ==> password_matches(password@, h@),
{
    let salt = argon2::password_hash::SaltString::generate(&mut rand_core::OsRng);
    argon2::PasswordHasher::hash_password(
        &argon2::Argon2::default(),
        password.as_bytes(),
        &salt,
    )
    .map(|h| h.to_string())
    .ok()
}

} // verus!
