//! Password utilities

use vstd::prelude::*;

use argon2::password_hash::phc::Salt;
use argon2::password_hash::try_generate_salt;
use argon2::password_hash::PasswordHasher;
use argon2::password_hash::PasswordVerifier;
use argon2::Argon2;

verus! {

/// Whether a password is the one that a hash in the PHC string format was
/// made of; no password is, where the text is no such hash
pub uninterp spec fn password_matches(hashed_password: Seq<char>, password: Seq<char>) -> bool;

/// Generate a new password
///
/// Calls `try_generate_salt` of `password_hash`, `Salt::new` on the bytes it
/// gives, and the `Display` of the salt. Trusted: nothing is claimed of the
/// text, which is random; there is none where the system has no random bytes
/// to give.
#[verifier::external_body]
pub fn generate() -> (password: Option<String>) {
    try_generate_salt().ok().and_then(|bytes| Salt::new(&bytes).ok()).map(|salt| salt.to_string())
}

/// Hash a given password
///
/// Calls `Argon2::default` and `PasswordHasher::hash_password` on what it
/// gives, which salts the password with random bytes, and the `Display` of
/// the hash. Trusted: the password verifies against the hash that comes back;
/// nothing else is claimed of the hash. There is none where the system has no
/// random bytes to give or the password is longer than Argon2 takes.
#[verifier::external_body]
pub fn hash(password: &str) -> (hashed_password: Option<String>)
    ensures
        hashed_password matches Some(text) ==> password_matches(text@, password@),
{
    Argon2::default().hash_password(password.as_bytes()).ok().map(|hashed| hashed.to_string())
}

/// Verify a given password against a given hash
///
/// Calls `Argon2::default` and `PasswordVerifier::verify_password` on what it
/// gives, with the hash as text. Trusted: the answer is a function of the two
/// texts alone, named `password_matches`.
#[verifier::external_body]
pub fn verify(hashed_password: &str, password: &str) -> (verified: bool)
    ensures
        verified == password_matches(hashed_password@, password@),
{
    Argon2::default().verify_password(password.as_bytes(), hashed_password).is_ok()
}

} // verus!
