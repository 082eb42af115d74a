//! Bearer-token trust establishment and verification.
//!
//! The library holds the signing material of a trusted issuer, rebuilds the
//! PEM armor around the issuer's raw public key, and validates presented
//! tokens against that key: signature, expiry, issuer identity and audience.

pub mod auth;
pub mod jwt;
pub mod pem;
