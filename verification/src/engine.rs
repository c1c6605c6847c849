//! The authorization pipeline.
//!
//! One request runs: fetch outcome in, decode, well-formedness, address
//! derivation check, decision, grant issuance. The ledger fetch itself is
//! I/O and stays with the caller, who hands its outcome in as a
//! [`FetchOutcome`]; everything after that point is a function of plain
//! values and is specified by [`authorize_model`].

use vstd::prelude::*;
use crate::codec::{decode, decode_model, LicenseAccount};
use crate::decision::{decide, decide_model, AuthorizeRequest, Decision, DecisionModel, RequestModel};
use crate::derivation::{derived_address, is_pda_marked, pda_marker, verify_claimed_address};
use crate::errors::{AuthError, DenialReason};
use crate::grant::{grant_not_after, issue, AccessGrant};
use crate::identity::{Identity, ID_LEN};
use solana_sdk::signature::Keypair;
use vstd::string::is_ascii;
use vstd::utf8::is_ascii_chars;

verus! {

/// The seed text under which the licensing authority files license records.
pub const LICENSE_SEED: &'static str = "license";

/// What the ledger fetch came back with: the account's raw bytes, no such
/// account, or no answer at all. The last two must never be conflated: one
/// means the request is invalid, the other means try again later.
#[derive(Debug)]
pub enum FetchOutcome {
    /// The account exists and holds these bytes.
    Bytes(Vec<u8>),
    /// The ledger answered: no account at the claimed address.
    NotFound,
    /// The ledger did not answer within bounds.
    Unavailable,
}

/// The mathematical shape of a fetch outcome.
#[verifier::ext_equal]
pub enum FetchModel {
    Bytes(Seq<u8>),
    NotFound,
    Unavailable,
}

impl View for FetchOutcome {
    type V = FetchModel;

    open spec fn view(&self) -> FetchModel {
        match self {
            FetchOutcome::Bytes(b) => FetchModel::Bytes(b@),
            FetchOutcome::NotFound => FetchModel::NotFound,
            FetchOutcome::Unavailable => FetchModel::Unavailable,
        }
    }
}

/// Process-wide immutable configuration: the licensing authority's program
/// identity and the service-held grant signing key. Loaded once at start,
/// never mutated.
pub struct EngineConfig {
    program_identity: Identity,
    signing_key: Keypair,
}

impl EngineConfig {
    /// The program identity the engine derives license addresses under.
    pub closed spec fn program_id(&self) -> Seq<u8> {
        self.program_identity@
    }

    /// A configuration is usable when the program identity is full length
    /// and is not itself reserved by the derivation scheme.
    pub open spec fn wf(&self) -> bool {
        self.program_id().len() == ID_LEN && !is_pda_marked(self.program_id())
    }

    /// Builds a configuration, refusing a program identity that the
    /// derivation scheme reserves.
    pub fn new(program_identity: Identity, signing_key: Keypair) -> (r: Option<EngineConfig>)
        requires
            program_identity.wf(),
        ensures
            r matches Some(c) ==> c.wf() && c.program_id() == program_identity@,
            r is None <==> is_pda_marked(program_identity@),
    {
        if tail_is_pda_marker(&program_identity) {
            None
        } else {
            Some(EngineConfig { program_identity, signing_key })
        }
    }

    /// The program identity, for callers that log or display it.
    pub fn program_identity(&self) -> (r: &Identity)
        ensures
            r@ == self.program_id(),
    {
        &self.program_identity
    }
}

/// Checks whether an identifier's last 21 bytes spell the reserved
/// program-derived-address marker.
fn tail_is_pda_marker(owner: &Identity) -> (b: bool)
    requires
        owner.wf(),
    ensures
        b == is_pda_marked(owner@),
{
    let mut marker: Vec<u8> = Vec::new();
    marker.push(0x50);
    marker.push(0x72);
    marker.push(0x6f);
    marker.push(0x67);
    marker.push(0x72);
    marker.push(0x61);
    marker.push(0x6d);
    marker.push(0x44);
    marker.push(0x65);
    marker.push(0x72);
    marker.push(0x69);
    marker.push(0x76);
    marker.push(0x65);
    marker.push(0x64);
    marker.push(0x41);
    marker.push(0x64);
    marker.push(0x64);
    marker.push(0x72);
    marker.push(0x65);
    marker.push(0x73);
    marker.push(0x73);
    proof {
        assert(marker@ =~= pda_marker());
        assert(owner@.subrange(11, 11) =~= pda_marker().subrange(0, 0));
    }
    let owner_bytes = owner.as_bytes();
    let mut all_equal = true;
    for i in 0..21
        invariant
            owner.wf(),
            marker@ == pda_marker(),
            owner_bytes@ == owner@,
            all_equal == (owner@.subrange(11, 11 + i) == pda_marker().subrange(0, i as int)),
    {
        let here = owner_bytes[11 + i] == marker[i];
        proof {
            if all_equal && here {
                assert(owner@.subrange(11, 11 + i + 1) =~= pda_marker().subrange(0, i + 1));
            }
            if owner@.subrange(11, 11 + i + 1) == pda_marker().subrange(0, i + 1) {
                assert(owner@.subrange(11, 11 + i + 1)[i as int] == pda_marker().subrange(
                    0,
                    i + 1,
                )[i as int]);
                assert(owner@.subrange(11, 11 + i) =~= owner@.subrange(11, 11 + i + 1).subrange(
                    0,
                    i as int,
                ));
                assert(pda_marker().subrange(0, i as int) =~= pda_marker().subrange(
                    0,
                    i + 1,
                ).subrange(0, i as int));
            }
        }
        all_equal = all_equal && here;
    }
    proof {
        assert(pda_marker().subrange(0, 21) =~= pda_marker());
        assert(is_pda_marked(owner@) == (owner@.subrange(11, 32) == pda_marker()));
    }
    all_equal
}

/// The seed text is plain ASCII and seven characters long.
pub proof fn lemma_license_seed_ascii()
    ensures
        is_ascii_chars("license"@),
        "license"@.len() == 7,
{
    reveal_strlit("license");
    let s = "license"@;
    assert forall|i: int| 0 <= i < s.len() implies '\0' <= #[trigger] s[i] <= '\u{7f}' by {
        if i == 0 {
            assert(s[0] == 'l');
        } else if i == 1 {
            assert(s[1] == 'i');
        } else if i == 2 {
            assert(s[2] == 'c');
        } else if i == 3 {
            assert(s[3] == 'e');
        } else if i == 4 {
            assert(s[4] == 'n');
        } else if i == 5 {
            assert(s[5] == 's');
        } else {
            assert(s[6] == 'e');
        }
    }
}

/// Everything an authorization run can come to, short of the signature
/// bytes, which depend on the key and are pinned only in length.
#[verifier::ext_equal]
pub enum AuthOutcome {
    Granted { subject: Seq<u8>, scope: Seq<u8>, not_before: i64, not_after: int },
    Failed(AuthError),
}

/// What the pipeline returns for a program identity, a request, a fetch
/// outcome and a time. The stages run in order: ledger failures first, then
/// structural decoding, then the address derivation check, then the five
/// decision checks, then issuance, which still refuses a window with no
/// remaining validity.
pub open spec fn authorize_model(
    program: Seq<u8>,
    q: RequestModel,
    f: FetchModel,
    now: i64,
) -> AuthOutcome {
    match f {
        FetchModel::Unavailable => AuthOutcome::Failed(AuthError::LedgerUnavailable),
        FetchModel::NotFound => AuthOutcome::Failed(AuthError::AccountNotFound),
        FetchModel::Bytes(b) => if b.len() == 0 {
            AuthOutcome::Failed(AuthError::AccountNotFound)
        } else {
            match decode_model(b) {
                None => AuthOutcome::Failed(AuthError::DecodeError),
                Some(m) => if !m.time_ordered() {
                    AuthOutcome::Failed(AuthError::DecodeError)
                } else if q.claimed != derived_address(q.asset, "license"@, program) {
                    AuthOutcome::Failed(AuthError::AddressMismatch)
                } else {
                    match decide_model(m, q, now) {
                        DecisionModel::Denied(reason) => AuthOutcome::Failed(
                            AuthError::Denied(reason),
                        ),
                        DecisionModel::Approved(scope) => if q.duration > 0 && m.end > now {
                            AuthOutcome::Granted {
                                subject: q.requester,
                                scope,
                                not_before: now,
                                not_after: grant_not_after(now, q.duration, m.end),
                            }
                        } else {
                            AuthOutcome::Failed(AuthError::Denied(DenialReason::LicenseExpired))
                        },
                    }
                },
            }
        },
    }
}

/// Runs one authorization request from the fetched account bytes to a signed
/// grant or a typed failure. Decode and derivation failures abort before any
/// semantic check; the decision engine never sees a malformed or unverified
/// record; no grant ever outlives the license.
pub fn authorize(
    config: &EngineConfig,
    request: &AuthorizeRequest,
    fetched: FetchOutcome,
    now: i64,
) -> (res: Result<AccessGrant, AuthError>)
    requires
        config.wf(),
        request.wf(),
    ensures
        match res {
            Ok(grant) => {
                &&& authorize_model(config.program_id(), request@, fetched@, now)
                    matches AuthOutcome::Granted { subject, scope, not_before, not_after }
                &&& grant@.subject == subject
                &&& grant@.scope == scope
                &&& grant@.not_before == not_before
                &&& grant@.not_after == not_after
                &&& grant.wf()
            },
            Err(e) => authorize_model(config.program_id(), request@, fetched@, now)
                == AuthOutcome::Failed(e),
        },
{
    let bytes = match fetched {
        FetchOutcome::Unavailable => {
            return Err(AuthError::LedgerUnavailable);
        },
        FetchOutcome::NotFound => {
            return Err(AuthError::AccountNotFound);
        },
        FetchOutcome::Bytes(b) => b,
    };
    if bytes.len() == 0 {
        return Err(AuthError::AccountNotFound);
    }
    let record: LicenseAccount = match decode(&bytes) {
        Ok(r) => r,
        Err(e) => {
            return Err(e);
        },
    };
    if record.license_start > record.license_end {
        return Err(AuthError::DecodeError);
    }
    proof {
        lemma_license_seed_ascii();
    }
    match verify_claimed_address(
        &request.claimed_license_location,
        &request.asset_requested,
        config.program_identity(),
        LICENSE_SEED,
    ) {
        Ok(_) => (),
        Err(e) => {
            return Err(e);
        },
    }
    match decide(&record, request, now) {
        Decision::Denied(reason) => Err(AuthError::Denied(reason)),
        Decision::Approved(scope) => {
            match issue(
                &config.signing_key,
                &request.requesting_identity,
                &scope,
                record.license_end,
                request.requested_duration,
                now,
            ) {
                Ok(grant) => Ok(grant),
                Err(reason) => Err(AuthError::Denied(reason)),
            }
        },
    }
}

/// Address-spoofing law: a well-formed, decodable record sitting at any
/// address other than the one derived for the requested asset always fails
/// with an address mismatch, whatever else the record says and whenever it is
/// evaluated.
pub proof fn lemma_address_spoofing(program: Seq<u8>, q: RequestModel, b: Seq<u8>, now: i64)
    ensures
        (b.len() > 0 && decode_model(b) is Some && decode_model(b)->Some_0.time_ordered()
            && q.claimed != derived_address(q.asset, "license"@, program)) ==> authorize_model(
            program,
            q,
            FetchModel::Bytes(b),
            now,
        ) == AuthOutcome::Failed(AuthError::AddressMismatch),
{
}

/// Grant-containment law: whatever is granted, the issued window never ends
/// after the underlying record's own end, and the granted scope is exactly
/// the asset the request named, never broader.
pub proof fn lemma_grant_containment(program: Seq<u8>, q: RequestModel, b: Seq<u8>, now: i64)
    ensures
        authorize_model(program, q, FetchModel::Bytes(b), now) matches AuthOutcome::Granted {
            scope,
            not_after,
            ..
        } ==> decode_model(b) is Some && not_after <= decode_model(b)->Some_0.end && scope
            == q.asset,
{
}

} // verus!
