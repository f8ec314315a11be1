//! Password hashing, through the bcrypt crate.
use vstd::prelude::*;

verus! {

/// Whether `password` matches the password hash `hash`: what
/// `bcrypt::verify` returns on the pair. Verification of a pair is a
/// function of the two strings alone.
pub uninterp spec fn password_matches(password: Seq<char>, hash: Seq<char>) -> bool;

/// Relies on `bcrypt::hash`: a hash it produces verifies against the
/// password it was produced from. The hash itself carries a random salt, so
/// nothing else is promised about it.
#[verifier::external_body]
pub fn hash_password(password: &str) -> (r: Result<String, ()>)
    ensures
        r matches Ok(h) ==> password_matches(password@, h@),
{
    match bcrypt::hash(password, bcrypt::DEFAULT_COST) {
        Ok(h) => Ok(h),
        Err(_) => Err(()),
    }
}

/// Relies on `bcrypt::verify`: decides whether `password` matches `hash`.
/// A malformed hash matches nothing.
#[verifier::external_body]
pub fn verify_password(password: &str, hash: &str) -> (r: bool)
    ensures
        r == password_matches(password@, hash@),
{
    bcrypt::verify(password, hash).unwrap_or(false)
}

} // verus!
