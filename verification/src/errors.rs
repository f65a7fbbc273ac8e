//! The failure taxonomy shared by the hashing and token-minting operations.

use vstd::prelude::*;

verus! {

/// Why an operation could not produce its result.
///
/// - `HashingFault`: the password-hashing backend failed; this is an
///   environment-level fault (for example, the entropy source was unusable),
///   not a property of the password, and is not worth retrying with the same
///   inputs.
/// - `SigningError`: the token could not be signed (key derivation or
///   signature computation failed). It carries no sensitive material.
/// - `ConfigurationMissing`: the issuer value was absent or empty; a
///   deployment defect, detected before any token is produced.
#[derive(Clone, Copy, Debug, PartialEq, Eq, Structural)]
pub enum AuthError {
    HashingFault,
    SigningError,
    ConfigurationMissing,
}

impl AuthError {
    /// A fixed human-readable message for each failure; never includes input
    /// material.
    pub fn message(&self) -> (r: &'static str)
        ensures
            *self is HashingFault ==> r@ == "Error hashing password."@,
            *self is SigningError ==> r@ == "Error signing JWT."@,
            *self is ConfigurationMissing ==> r@ == "Issuer configuration is missing."@,
    {
        match self {
            AuthError::HashingFault => "Error hashing password.",
            AuthError::SigningError => "Error signing JWT.",
            AuthError::ConfigurationMissing => "Issuer configuration is missing.",
        }
    }
}

} // verus!
