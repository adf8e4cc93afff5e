//! The identity and access core of a to-do list API: typed domain value
//! validation, salted password hashing, issuance and verification of signed,
//! time-bounded access tokens, and the per-request authentication checkpoint
//! that turns a bearer header into a trusted principal.
//!
//! Everything that decides — grammars, length rules, token framing and
//! parsing, expiry classification, credential and principal decisions — is
//! verified; outside code (the bcrypt hasher, the HMAC signer, the clock, the
//! UUID generator, the RFC 3339 parser) stands behind small trusted wrappers
//! whose contracts name exactly what is relied on.

pub mod base64url;
pub mod decimal;
pub mod gate;
pub mod password;
pub mod payload;
pub mod response;
pub mod task;
pub mod text;
pub mod usecase;
pub mod user;
