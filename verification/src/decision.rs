//! Authorization decision engine.
//!
//! A pure function of the decoded record, the request and the evaluation
//! time. The checks run in a fixed order and stop at the first failure, each
//! with its own denial reason: status, window start, window end, licensee
//! identity, asset coverage. Both window boundaries are inclusive. Coverage
//! is asset-identity equality: the record licenses exactly one asset.

use vstd::prelude::*;
use crate::codec::{LicenseAccount, LicenseStatus, RecordModel};
use crate::errors::DenialReason;
use crate::identity::{Identity, ID_LEN};

verus! {

/// A caller-supplied, untrusted request for access.
#[derive(Debug)]
pub struct AuthorizeRequest {
    /// The asset the caller wants to reach.
    pub asset_requested: Identity,
    /// The ledger address the caller asserts holds the license record.
    pub claimed_license_location: Identity,
    /// The party requesting access.
    pub requesting_identity: Identity,
    /// Requested validity length of the grant, in seconds.
    pub requested_duration: u64,
}

/// The mathematical shape of a request.
#[verifier::ext_equal]
pub struct RequestModel {
    pub asset: Seq<u8>,
    pub claimed: Seq<u8>,
    pub requester: Seq<u8>,
    pub duration: u64,
}

impl View for AuthorizeRequest {
    type V = RequestModel;

    open spec fn view(&self) -> RequestModel {
        RequestModel {
            asset: self.asset_requested@,
            claimed: self.claimed_license_location@,
            requester: self.requesting_identity@,
            duration: self.requested_duration,
        }
    }
}

impl RequestModel {
    /// Every identifier holds exactly 32 bytes.
    pub open spec fn wf(&self) -> bool {
        self.asset.len() == ID_LEN && self.claimed.len() == ID_LEN && self.requester.len()
            == ID_LEN
    }
}

impl AuthorizeRequest {
    /// Well-formedness of the executable request.
    pub open spec fn wf(&self) -> bool {
        self@.wf()
    }
}

/// The decision's mathematical shape: the scope approved, or the reason
/// denied.
#[verifier::ext_equal]
pub enum DecisionModel {
    Approved(Seq<u8>),
    Denied(DenialReason),
}

/// Outcome of the decision engine: access to a scope, or a denial.
#[derive(Debug)]
pub enum Decision {
    /// Access approved for exactly this scope: the requested asset, never the
    /// license's full coverage if the request asked for less.
    Approved(Identity),
    /// Access denied, with the first failing check's reason.
    Denied(DenialReason),
}

impl View for Decision {
    type V = DecisionModel;

    open spec fn view(&self) -> DecisionModel {
        match self {
            Decision::Approved(scope) => DecisionModel::Approved(scope@),
            Decision::Denied(reason) => DecisionModel::Denied(*reason),
        }
    }
}

/// What the decision engine returns for a record, a request and a time:
/// the five checks in order, stopping at the first that fails.
pub open spec fn decide_model(r: RecordModel, q: RequestModel, now: i64) -> DecisionModel {
    if r.status != LicenseStatus::Active {
        DecisionModel::Denied(DenialReason::LicenseInactive(r.status))
    } else if now < r.start {
        DecisionModel::Denied(DenialReason::LicenseNotYetStarted)
    } else if now > r.end {
        DecisionModel::Denied(DenialReason::LicenseExpired)
    } else if q.requester != r.licensee {
        DecisionModel::Denied(DenialReason::LicenseeMismatch)
    } else if q.asset != r.asset {
        DecisionModel::Denied(DenialReason::AssetNotCovered)
    } else {
        DecisionModel::Approved(q.asset)
    }
}

/// Evaluates whether the requesting identity holds an active license covering
/// the requested asset at the given time. Pure: reads nothing but its
/// arguments, mutates nothing.
pub fn decide(record: &LicenseAccount, request: &AuthorizeRequest, now: i64) -> (d: Decision)
    requires
        record.wf(),
        request.wf(),
    ensures
        d@ == decide_model(record@, request@, now),
{
    let active = match record.status {
        LicenseStatus::Active => true,
        _ => false,
    };
    if !active {
        Decision::Denied(DenialReason::LicenseInactive(record.status))
    } else if now < record.license_start {
        Decision::Denied(DenialReason::LicenseNotYetStarted)
    } else if now > record.license_end {
        Decision::Denied(DenialReason::LicenseExpired)
    } else if !request.requesting_identity.same_as(&record.licensee_pubkey) {
        Decision::Denied(DenialReason::LicenseeMismatch)
    } else if !request.asset_requested.same_as(&record.asset_pubkey) {
        Decision::Denied(DenialReason::AssetNotCovered)
    } else {
        Decision::Approved(request.asset_requested.dup())
    }
}

/// Time-window law, with both boundaries inclusive: for an active record and
/// an otherwise matching request, a time before the start denies as not yet
/// started, a time inside the window approves, and a time after the end
/// denies as expired.
pub proof fn lemma_time_window(r: RecordModel, q: RequestModel, now: i64)
    requires
        r.time_ordered(),
        r.status == LicenseStatus::Active,
        q.requester == r.licensee,
        q.asset == r.asset,
    ensures
        now < r.start ==> decide_model(r, q, now) == DecisionModel::Denied(
            DenialReason::LicenseNotYetStarted,
        ),
        r.start <= now <= r.end ==> decide_model(r, q, now) == DecisionModel::Approved(q.asset),
        now > r.end ==> decide_model(r, q, now) == DecisionModel::Denied(
            DenialReason::LicenseExpired,
        ),
{
}

/// Identity-mismatch law: a request from a party other than the licensee is
/// never approved; and whenever the earlier checks pass (the record is active
/// and the time lies inside the window), the denial names the mismatch.
pub proof fn lemma_identity_mismatch(r: RecordModel, q: RequestModel, now: i64)
    requires
        q.requester != r.licensee,
    ensures
        decide_model(r, q, now) !is Approved,
        (r.status == LicenseStatus::Active && r.start <= now <= r.end) ==> decide_model(r, q, now)
            == DecisionModel::Denied(DenialReason::LicenseeMismatch),
{
}

/// Scope-containment law at the decision: an approval's scope is always
/// exactly the asset the request named, never anything broader.
pub proof fn lemma_approved_scope(r: RecordModel, q: RequestModel, now: i64)
    ensures
        decide_model(r, q, now) matches DecisionModel::Approved(scope) ==> scope == q.asset,
{
}

} // verus!
