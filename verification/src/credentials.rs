//! Password hashing and verification on top of Argon2.
//!
//! A hash embeds a freshly generated random salt, so two hashes of the same
//! password differ; verification re-derives the hash from the salt and
//! parameters carried inside the stored string and compares in constant
//! time.  That computation is a function of the password and the stored
//! string alone, named here by [`password_matches`].

use vstd::prelude::*;

use argon2::PasswordHasher;
use argon2::PasswordVerifier;

verus! {

/// Whether Argon2 verification of `password` against the password-hash
/// string `hash` succeeds.  Deterministic in its two arguments: the salt
/// and all parameters are part of `hash`.  False whenever `hash` is not a
/// well-formed hash string.
pub uninterp spec fn password_matches(password: Seq<char>, hash: Seq<char>) -> bool;

/// Relies on `Argon2::hash_password` (argon2 crate) with a salt freshly
/// drawn from the operating system's randomness: the resulting PHC string
/// verifies against the hashed password, since `verify_password` re-derives
/// the hash from the salt and parameters it carries.
#[verifier::external_body]
fn argon2_hash(password: &str) -> (r: Option<String>)
    ensures
        r matches Some(h) ==> password_matches(password@, h@),
{
    let salt = argon2::password_hash::SaltString::generate(&mut rand_core::OsRng);
    match argon2::Argon2::default().hash_password(password.as_bytes(), &salt) {
        Ok(h) => Some(h.to_string()),
        Err(_) => None,
    }
}

/// Relies on `Argon2::verify_password` (argon2 crate): re-derives the hash
/// using the salt and parameters embedded in `hash` and compares in
/// constant time.  A malformed stored hash verifies as false rather than
/// erroring.
#[verifier::external_body]
fn argon2_verify(password: &str, hash: &str) -> (r: bool)
    ensures
        r == password_matches(password@, hash@),
{
    match argon2::PasswordHash::new(hash) {
        Ok(parsed) => {
            argon2::Argon2::default().verify_password(password.as_bytes(), &parsed).is_ok()
        },
        Err(_) => false,
    }
}

/// Hash a password with a fresh random salt.
///
/// `None` means the hashing primitive itself failed, which the caller
/// treats as an internal error; the plaintext never appears in any error.
/// Every produced hash verifies against the password it was derived from.
pub fn hash(password: String) -> (r: Option<String>)
    ensures
        r matches Some(h) ==> password_matches(password@, h@),
{
    argon2_hash(password.as_str())
}

/// Verify a password against a stored hash string.
///
/// Returns exactly whether the Argon2 re-derivation matches; a malformed
/// stored hash yields `false`, never an error to the caller.
pub fn verify(password: String, hash: String) -> (r: bool)
    ensures
        r == password_matches(password@, hash@),
{
    argon2_verify(password.as_str(), hash.as_str())
}

} // verus!
