//! Grant issuer.
//!
//! For an approved request the engine mints a short-lived access grant: the
//! authorized identity, the granted scope, an absolute validity window that
//! never outlives the underlying license, and an Ed25519 signature over all
//! four fields by a service-held key. A downstream resource server holding
//! the matching public key can check the grant offline.

use vstd::prelude::*;
use crate::codec::{i64_le_bytes, i64_of_le_bytes, lemma_i64_le_round_trip};
use crate::errors::DenialReason;
use crate::identity::{Identity, ID_LEN};
use solana_sdk::signature::{Keypair, Signer};

verus! {

/// Number of bytes in a grant signature.
pub const SIG_LEN: usize = 64;

/// Declares solana_sdk's `Keypair`, the service-held Ed25519 signing key; the
/// engine carries it opaquely and only ever hands it to `sign_raw`.
#[verifier::external_type_specification]
#[verifier::external_body]
pub struct ExKeypair(Keypair);

/// A signed, expiring access credential.
#[derive(Debug)]
pub struct AccessGrant {
    /// The authorized identity.
    pub subject: Identity,
    /// The specific asset granted.
    pub scope: Identity,
    /// Start of the validity window (inclusive).
    pub not_before: i64,
    /// End of the validity window (inclusive); never beyond the license's
    /// own end.
    pub not_after: i64,
    /// Ed25519 signature over subject, scope, not_before and not_after.
    pub signature: Vec<u8>,
}

/// The mathematical shape of a grant.
#[verifier::ext_equal]
pub struct GrantModel {
    pub subject: Seq<u8>,
    pub scope: Seq<u8>,
    pub not_before: i64,
    pub not_after: i64,
    pub signature: Seq<u8>,
}

impl View for AccessGrant {
    type V = GrantModel;

    open spec fn view(&self) -> GrantModel {
        GrantModel {
            subject: self.subject@,
            scope: self.scope@,
            not_before: self.not_before,
            not_after: self.not_after,
            signature: self.signature@,
        }
    }
}

impl AccessGrant {
    /// Well-formedness: full-length identifiers, an unreversed window, and a
    /// full-length signature.
    pub open spec fn wf(&self) -> bool {
        self@.subject.len() == ID_LEN && self@.scope.len() == ID_LEN && self@.not_before
            <= self@.not_after && self@.signature.len() == SIG_LEN
    }
}

/// The bytes a grant signature covers: subject, scope, then the two window
/// timestamps in little-endian form.
pub open spec fn grant_message(
    subject: Seq<u8>,
    scope: Seq<u8>,
    not_before: i64,
    not_after: i64,
) -> Seq<u8> {
    subject + scope + i64_le_bytes(not_before) + i64_le_bytes(not_after)
}

/// The signed message pins down all four fields: two grants whose messages
/// coincide agree on subject, scope and both window timestamps, so altering
/// any one field invalidates the signature.
pub proof fn lemma_grant_message_injective(
    subject1: Seq<u8>,
    scope1: Seq<u8>,
    not_before1: i64,
    not_after1: i64,
    subject2: Seq<u8>,
    scope2: Seq<u8>,
    not_before2: i64,
    not_after2: i64,
)
    requires
        subject1.len() == ID_LEN,
        scope1.len() == ID_LEN,
        subject2.len() == ID_LEN,
        scope2.len() == ID_LEN,
        grant_message(subject1, scope1, not_before1, not_after1) == grant_message(
            subject2,
            scope2,
            not_before2,
            not_after2,
        ),
    ensures
        subject1 == subject2,
        scope1 == scope2,
        not_before1 == not_before2,
        not_after1 == not_after2,
{
    let m = grant_message(subject1, scope1, not_before1, not_after1);
    assert(m.subrange(0, 32) =~= subject1);
    assert(m.subrange(0, 32) =~= subject2);
    assert(m.subrange(32, 64) =~= scope1);
    assert(m.subrange(32, 64) =~= scope2);
    assert(m.subrange(64, 72) =~= i64_le_bytes(not_before1));
    assert(m.subrange(64, 72) =~= i64_le_bytes(not_before2));
    assert(m.subrange(72, 80) =~= i64_le_bytes(not_after1));
    assert(m.subrange(72, 80) =~= i64_le_bytes(not_after2));
    lemma_i64_le_round_trip(not_before1);
    lemma_i64_le_round_trip(not_before2);
    lemma_i64_le_round_trip(not_after1);
    lemma_i64_le_round_trip(not_after2);
}

/// Builds the bytes the grant signature covers.
pub fn grant_message_bytes(
    subject: &Identity,
    scope: &Identity,
    not_before: i64,
    not_after: i64,
) -> (out: Vec<u8>)
    ensures
        out@ == grant_message(subject@, scope@, not_before, not_after),
{
    let mut out: Vec<u8> = Vec::new();
    subject.append_to(&mut out);
    scope.append_to(&mut out);
    crate::codec::push_i64_le(&mut out, not_before);
    crate::codec::push_i64_le(&mut out, not_after);
    proof {
        assert(out@ =~= grant_message(subject@, scope@, not_before, not_after));
    }
    out
}

/// Relies on solana_sdk's `Keypair::sign_message` (an Ed25519 signer): the
/// returned signature is 64 bytes. Which 64 bytes depends on the key held
/// inside, so nothing more is claimed of the value.
#[verifier::external_body]
fn sign_raw(key: &Keypair, message: &[u8]) -> (sig: Vec<u8>)
    ensures
        sig@.len() == SIG_LEN,
{
    key.sign_message(message).as_ref().to_vec()
}

/// Where the issued window ends: the requested duration past now, capped at
/// the license's own end.
pub open spec fn grant_not_after(now: i64, requested_duration: u64, license_end: i64) -> int {
    if now + requested_duration <= license_end {
        now + requested_duration
    } else {
        license_end as int
    }
}

/// Issues a signed grant for an approved request, scoped to exactly what was
/// authorized. The window runs from now until the requested duration or the
/// license's end, whichever comes first; a window with no remaining validity
/// is refused as expired rather than issued empty.
pub fn issue(
    key: &Keypair,
    subject: &Identity,
    scope: &Identity,
    license_end: i64,
    requested_duration: u64,
    now: i64,
) -> (g: Result<AccessGrant, DenialReason>)
    requires
        subject.wf(),
        scope.wf(),
        now <= license_end,
    ensures
        match g {
            Ok(grant) => {
                &&& requested_duration > 0 && now < license_end
                &&& grant.wf()
                &&& grant@.subject == subject@
                &&& grant@.scope == scope@
                &&& grant@.not_before == now
                &&& grant@.not_after == grant_not_after(now, requested_duration, license_end)
                &&& now < grant@.not_after <= license_end
            },
            Err(reason) => {
                &&& reason == DenialReason::LicenseExpired
                &&& (requested_duration == 0 || now >= license_end)
            },
        },
{
    let limit: i128 = license_end as i128;
    let want: i128 = (now as i128) + (requested_duration as i128);
    let capped: i128 = if want <= limit {
        want
    } else {
        limit
    };
    if capped <= now as i128 {
        return Err(DenialReason::LicenseExpired);
    }
    let not_after: i64 = capped as i64;
    let message = grant_message_bytes(subject, scope, now, not_after);
    let signature = sign_raw(key, message.as_slice());
    Ok(
        AccessGrant {
            subject: subject.dup(),
            scope: scope.dup(),
            not_before: now,
            not_after,
            signature,
        },
    )
}

} // verus!
