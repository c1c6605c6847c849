//! License authorization engine.
//!
//! Grants or denies time-bounded access to a protected digital asset based on
//! a license record stored in an account of an external ledger. The engine
//! decodes the raw account bytes into a [`codec::LicenseAccount`], checks that
//! the claimed account address is the legitimately derived address for the
//! requested asset, evaluates the identity, status, time-window and scope
//! rules, and, when every check passes, issues a signed, expiring
//! [`grant::AccessGrant`].
//!
//! The ledger fetch itself is the caller's business: the engine takes the
//! outcome of that fetch as a plain value ([`engine::FetchOutcome`]) and is a
//! pure function from there on.

use vstd::prelude::*;

pub mod codec;
pub mod decision;
pub mod derivation;
pub mod engine;
pub mod errors;
pub mod grant;
pub mod identity;
pub mod metadata;

verus! {

/// Greeting served at the root route of the surrounding service.
pub fn index() -> (r: &'static str)
    ensures
        r@ == "Hello, AWS!"@,
{
    "Hello, AWS!"
}

} // verus!
