//! The engine's failure taxonomy.

use vstd::prelude::*;
use crate::codec::LicenseStatus;

verus! {

/// Reasons for an ordinary authorization denial. These are safe to return to
/// the caller with the specific reason: none leaks information beyond what the
/// caller already asserted.
#[derive(Clone, Copy, Debug, PartialEq, Eq, Structural)]
pub enum DenialReason {
    /// The record's status is not `Active`. The stored status is carried so
    /// that a pending license is distinguishable from a revoked one.
    LicenseInactive(LicenseStatus),
    /// The evaluation time lies before the license's start.
    LicenseNotYetStarted,
    /// The evaluation time lies after the license's end, or the license has no
    /// remaining validity out of which to issue a grant.
    LicenseExpired,
    /// The requesting identity is not the record's licensee.
    LicenseeMismatch,
    /// The requested asset is not covered by the record's asset.
    AssetNotCovered,
}

/// Everything that can abort an authorization request short of a grant.
#[derive(Clone, Copy, Debug, PartialEq, Eq, Structural)]
pub enum AuthError {
    /// The ledger did not answer; transient, the caller should retry later.
    LedgerUnavailable,
    /// The claimed license location has no data (or is empty); permanent for
    /// this request.
    AccountNotFound,
    /// The account exists but does not hold a well-formed record; permanent,
    /// worth logging distinctly from ordinary denials.
    DecodeError,
    /// The claimed account is not the legitimately derived license record for
    /// the requested asset; a security-relevant denial.
    AddressMismatch,
    /// An ordinary authorization denial, with its reason.
    Denied(DenialReason),
}

} // verus!
