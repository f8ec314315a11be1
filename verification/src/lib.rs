//! Core authentication and token-lifecycle library for a user platform.
//!
//! The crate models the credential store (users, provider links, refresh
//! tokens) as an explicit in-memory structure with proved invariants, and
//! builds the token service (issue / refresh / verify) and the OpenID
//! identity-reconciliation flow on top of it. Signing, password hashing and
//! randomness are obtained from outside crates through a small set of
//! trusted wrappers; everything else is verified.
use vstd::prelude::*;

pub mod registry;
pub mod store;
pub mod token;
pub mod hashing;
pub mod flow;
pub mod laws;
pub mod types;

verus! {

/// If the condition is not true the `error` is returned.
#[must_use]
pub fn guard<E>(condition: bool, error: E) -> (r: Result<(), E>)
    ensures
        r == if condition {
            Ok::<(), E>(())
        } else {
            Err::<(), E>(error)
        },
{
    if condition {
        Ok(())
    } else {
        Err(error)
    }
}

} // verus!
