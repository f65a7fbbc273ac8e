//! Authentication primitives: salted password hashing and verification, and
//! minting of short-lived HMAC-SHA384 signed session tokens.

pub mod b64;
pub mod errors;
pub mod hashing;
pub mod jsonfmt;
pub mod strutil;
pub mod token;
