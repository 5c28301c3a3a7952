use argon2::password_hash::rand_core::{OsRng, RngCore};
use argon2::password_hash::{PasswordHash, PasswordHasher, PasswordVerifier, Salt, SaltString};
use argon2::Argon2;
use vstd::prelude::*;

verus! {

/// Whether argon2 accepts `password` against the PHC string `phc`.
pub uninterp spec fn argon2_verifies(password: Seq<char>, phc: Seq<char>) -> bool;

/// The hasher could not produce a hash (random source or algorithm fault).
pub enum HashError {
    HashingFailed,
}

/// Relies on argon2's `PasswordHasher::hash_password` with `Argon2::default()`
/// and a salt of `Salt::RECOMMENDED_LENGTH` bytes drawn with
/// `OsRng.try_fill_bytes` and encoded by `SaltString::encode_b64`. The PHC
/// string it writes starts with the `$` separator, and re-running the
/// algorithm with the parameters and salt it carries gives the same output,
/// so argon2's verifier accepts the password against it. `None` stands for a
/// failure of the random source or of argon2.
#[verifier::external_body]
fn argon2_hash(password: &str) -> (r: Option<String>)
    ensures
        r matches Some(h) ==> argon2_verifies(password@, h@),
        r matches Some(h) ==> h@.len() > 0 && h@[0] == '$',
{
    let mut bytes = [0u8; Salt::RECOMMENDED_LENGTH];
    if OsRng.try_fill_bytes(&mut bytes).is_err() {
        return None;
    }
    let salt = SaltString::encode_b64(&bytes).ok()?;
    Argon2::default().hash_password(password.as_bytes(), &salt).map(|h| h.to_string()).ok()
}

/// Relies on argon2's `PasswordHash::new` and `PasswordVerifier::verify_password`
/// with `Argon2::default()`: whether the PHC string parses and its output
/// matches the password, a function of the two strings alone.
#[verifier::external_body]
fn argon2_verify(password: &str, phc: &str) -> (r: bool)
    ensures
        r == argon2_verifies(password@, phc@),
{
    match PasswordHash::new(phc) {
        Ok(parsed) => Argon2::default().verify_password(password.as_bytes(), &parsed).is_ok(),
        Err(_) => false,
    }
}

/// Hashes a plaintext password with a fresh random salt. The result is a PHC
/// string that begins with `$` and that `verify_password` accepts for the
/// same plaintext.
pub fn hash_password(password: &str) -> (r: Result<String, HashError>)
    ensures
        r matches Ok(h) ==> argon2_verifies(password@, h@),
        r matches Ok(h) ==> h@.len() > 0 && h@[0] == '$',
{
    match argon2_hash(password) {
        Some(h) => Ok(h),
        None => Err(HashError::HashingFailed),
    }
}

/// Whether `hash` is a PHC string that matches `password`.
pub fn verify_password(password: &str, hash: &str) -> (r: bool)
    ensures
        r == argon2_verifies(password@, hash@),
{
    argon2_verify(password, hash)
}

} // verus!
