//! Salted, irreversible password hashing and verification.
//!
//! Hashing draws a fresh random salt for every call and runs Argon2id with
//! its default cost parameters over the password and salt; the result is one
//! self-describing PHC string holding algorithm tag, version, parameters,
//! salt and derived output. Verification parses that string and recomputes
//! the hash under the salt and parameters embedded in it, never under a
//! fresh salt, and compares in constant time.

use crate::errors::AuthError;
use argon2::password_hash::rand_core::OsRng;
use argon2::password_hash::PasswordHasher;
use argon2::password_hash::PasswordVerifier;
use argon2::password_hash::SaltString;
use vstd::prelude::*;

verus! {

/// The PHC string that Argon2id (version 19, default cost parameters)
/// derives from a password and a salt. Determined by the two arguments
/// alone.
pub uninterp spec fn argon2id_phc(password: Seq<char>, salt: Seq<char>) -> Seq<char>;

/// Whether verification accepts `password` against `stored_hash`: the hash
/// recomputed under the salt and parameters embedded in `stored_hash`
/// equals the output embedded there. Determined by the two arguments alone;
/// false on any malformed `stored_hash`.
pub uninterp spec fn password_matches(password: Seq<char>, stored_hash: Seq<char>) -> bool;

/// True when `s` begins with the PHC tag of the Argon2id algorithm.
pub open spec fn has_argon2id_tag(s: Seq<char>) -> bool {
    s.len() >= 10 && s.subrange(0, 10) == "$argon2id$"@
}

/// Relies on `argon2::Argon2::default()` with
/// `password_hash::SaltString::generate(OsRng)` and
/// `PasswordHasher::hash_password`: the encoded result is the PHC string
/// determined by the password and the freshly drawn salt alone (Argon2id,
/// version 19, default cost parameters); it begins with `$argon2id$`; and
/// `PasswordVerifier::verify_password` accepts the same password against
/// it, since verification re-derives the output from the embedded salt and
/// parameters.
#[verifier::external_body]
fn argon2_hash_fresh_salt(password: &str) -> (r: Result<String, ()>)
    ensures
        r matches Ok(h) ==> (exists|salt: Seq<char>| h@ == argon2id_phc(password@, salt))
            && has_argon2id_tag(h@) && password_matches(password@, h@),
{
    let salt = SaltString::generate(&mut OsRng);
    let argon2 = argon2::Argon2::default();
    match argon2.hash_password(password.as_bytes(), &salt) {
        Ok(h) => Ok(h.to_string()),
        Err(_) => Err(()),
    }
}

/// Relies on `password_hash::PasswordHash::new` (PHC string parsing) and
/// `argon2::PasswordVerifier::verify_password`: the outcome is determined
/// by the password and the stored string alone — the salt and parameters
/// come out of the stored string, the recomputed output is compared in
/// constant time, and a string that does not parse is an ordinary mismatch.
/// A stored string that Argon2id itself derived from the same password is
/// accepted, since verification re-derives the output under the embedded
/// salt and parameters.
#[verifier::external_body]
fn argon2_check(password: &str, stored_hash: &str) -> (r: bool)
    ensures
        r == password_matches(password@, stored_hash@),
        (exists|salt: Seq<char>| stored_hash@ == argon2id_phc(password@, salt)) ==> r,
{
    let parsed = match argon2::password_hash::PasswordHash::new(stored_hash) {
        Ok(p) => p,
        Err(_) => return false,
    };
    argon2::Argon2::default().verify_password(password.as_bytes(), &parsed).is_ok()
}

/// Hash a password under a fresh random salt.
///
/// On success the returned string is the self-describing Argon2id PHC
/// encoding of the password under some fresh salt, and verifying the same
/// password against it succeeds. The only failure is an environment-level
/// fault of the hashing backend, surfaced as `HashingFault`.
pub fn hash_password(password: &str) -> (r: Result<String, AuthError>)
    ensures
        r matches Ok(h) ==> (exists|salt: Seq<char>| h@ == argon2id_phc(password@, salt))
            && has_argon2id_tag(h@) && password_matches(password@, h@),
        r matches Err(e) ==> e == AuthError::HashingFault,
{
    match argon2_hash_fresh_salt(password) {
        Ok(h) => Ok(h),
        Err(_) => Err(AuthError::HashingFault),
    }
}

/// Check a password against a previously produced hash string.
///
/// True exactly when the hash recomputed under the salt and parameters
/// embedded in `stored_hash` matches its embedded output; in particular,
/// any hash that Argon2id derived from this same password is accepted. A
/// mismatch and a malformed `stored_hash` are both an ordinary `false`:
/// the caller cannot tell them apart.
pub fn verify_password(password: &str, stored_hash: &str) -> (r: bool)
    ensures
        r == password_matches(password@, stored_hash@),
        (exists|salt: Seq<char>| stored_hash@ == argon2id_phc(password@, salt)) ==> r,
{
    argon2_check(password, stored_hash)
}

} // verus!
