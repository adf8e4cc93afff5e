//! Password hashing: adaptive-cost, salted, one-way.
//!
//! The digest of a password is produced by an outside hasher with a random
//! salt, so two digests of the same password differ; what is knowable is
//! whether a digest verifies against a password, and that is the one spec-level
//! notion (`bcrypt_check`) the contracts here are written over.

use vstd::prelude::*;

verus! {

/// What bcrypt's verifier returns for a password and a digest: `Some(b)` with
/// the comparison outcome, or `None` for a structurally malformed digest. It
/// depends on the two arguments alone.
pub uninterp spec fn bcrypt_check(password: Seq<char>, digest: Seq<char>) -> Option<bool>;

/// A password verifies against a digest when the hasher accepts the pair.
pub open spec fn password_verifies(password: Seq<char>, digest: Seq<char>) -> bool {
    bcrypt_check(password, digest) == Some(true)
}

/// Relies on bcrypt::verify: it re-derives the digest from the password using
/// the salt and cost embedded in `digest` and compares in constant time, so its
/// result is a function of the two arguments; it returns an error only for a
/// digest whose structure is malformed.
#[verifier::external_body]
fn bcrypt_verify(password: &str, digest: &str) -> (r: Option<bool>)
    ensures
        r == bcrypt_check(password@, digest@),
{
    bcrypt::verify(password, digest).ok()
}

/// Relies on bcrypt::hash: it produces a salted digest with the default cost,
/// and bcrypt::verify accepts a digest so produced against the same password.
#[verifier::external_body]
fn bcrypt_hash(password: &str) -> (r: Option<String>)
    ensures
        r matches Some(d) ==> bcrypt_check(password@, d@) == Some(true),
{
    bcrypt::hash(password, bcrypt::DEFAULT_COST).ok()
}

/// Hash a password with a fresh random salt. `None` only when the hasher
/// itself fails; a returned digest always verifies against `password`.
pub fn hash_password(password: &str) -> (r: Option<String>)
    ensures
        r matches Some(d) ==> password_verifies(password@, d@),
{
    bcrypt_hash(password)
}

/// Check a password against a stored digest. A malformed digest yields
/// `false`, never a crash.
pub fn verify_password(password: &str, digest: &str) -> (r: bool)
    ensures
        r == password_verifies(password@, digest@),
{
    match bcrypt_verify(password, digest) {
        Some(b) => b,
        None => false,
    }
}

/// Law: any digest that the hasher hands out for a password verifies against
/// that password — `verify_password(p, d)` is true for every `d` returned by
/// `hash_password(p)`, whatever salt was drawn.
pub proof fn lemma_fresh_digest_verifies(password: Seq<char>, digest: Seq<char>)
    requires
        bcrypt_check(password, digest) == Some(true),
    ensures
        password_verifies(password, digest),
{
}

} // verus!
