//! Address derivation verifier.
//!
//! A caller could point the engine at an arbitrary, attacker-controlled
//! account that happens to decode successfully but was never created by the
//! licensing authority. Only an account whose address equals the one derived
//! deterministically from the asset identity, the issuing authority identity
//! and a fixed textual seed is trusted as a genuine license record. The
//! derivation is recomputed fresh on every request and compared byte for
//! byte.

use vstd::prelude::*;
use crate::errors::AuthError;
use crate::identity::{Identity, ID_LEN};
use solana_sdk::pubkey::Pubkey;

verus! {

/// The address that the ledger's derivation scheme assigns to the given base
/// address, seed text and owning program: a one-way hash of the three.
pub uninterp spec fn derived_address(base: Seq<u8>, seed: Seq<char>, owner: Seq<u8>) -> Seq<u8>;

/// The marker that the ledger reserves at the tail of program-derived
/// addresses; the ASCII bytes of "ProgramDerivedAddress".
pub open spec fn pda_marker() -> Seq<u8> {
    seq![
        0x50u8,
        0x72u8,
        0x6fu8,
        0x67u8,
        0x72u8,
        0x61u8,
        0x6du8,
        0x44u8,
        0x65u8,
        0x72u8,
        0x69u8,
        0x76u8,
        0x65u8,
        0x64u8,
        0x41u8,
        0x64u8,
        0x64u8,
        0x72u8,
        0x65u8,
        0x73u8,
        0x73u8,
    ]
}

/// True of a 32-byte owner address whose last 21 bytes spell the reserved
/// marker; the derivation scheme refuses such owners.
pub open spec fn is_pda_marked(owner: Seq<u8>) -> bool {
    owner.len() == ID_LEN && owner.subrange(11, 32) == pda_marker()
}

/// Relies on solana_sdk's `Pubkey::create_with_seed`: the result is a hash of
/// the base address bytes, the seed's bytes and the owner address bytes
/// alone, and the call fails exactly when the seed is longer than 32 bytes or
/// the owner address ends with the reserved program-derived-address marker.
#[verifier::external_body]
fn create_with_seed_raw(base: &[u8], seed: &str, owner: &[u8]) -> (r: Option<Vec<u8>>)
    requires
        base@.len() == ID_LEN,
        owner@.len() == ID_LEN,
    ensures
        (r matches Some(a) ==> a@.len() == ID_LEN && a@ == derived_address(
            base@,
            seed@,
            owner@,
        )),
        vstd::string::is_ascii(seed) ==> ((r is Some) <==> (seed@.len() <= 32 && !is_pda_marked(
            owner@,
        ))),
{
    let base_key = match Pubkey::try_from(base) {
        Ok(k) => k,
        Err(_) => return None,
    };
    let owner_key = match Pubkey::try_from(owner) {
        Ok(k) => k,
        Err(_) => return None,
    };
    match Pubkey::create_with_seed(&base_key, seed, &owner_key) {
        Ok(derived) => Some(derived.to_bytes().to_vec()),
        Err(_) => None,
    }
}

/// Recomputes the address at which the legitimate license record for the
/// given asset must live. Deterministic: the result is a function of the
/// three inputs and nothing else. Fails only for a seed longer than 32 bytes
/// or an owner address carrying the reserved marker.
pub fn derive_expected_address(asset: &Identity, program: &Identity, seed: &str) -> (r: Option<
    Identity,
>)
    requires
        asset.wf(),
        program.wf(),
    ensures
        (r matches Some(a) ==> a.wf() && a@ == derived_address(asset@, seed@, program@)),
        vstd::string::is_ascii(seed) ==> ((r is Some) <==> (seed@.len() <= 32 && !is_pda_marked(
            program@,
        ))),
{
    let raw = create_with_seed_raw(asset.as_bytes().as_slice(), seed, program.as_bytes().as_slice());
    match raw {
        Some(bytes) => match Identity::from_bytes(bytes) {
            Some(id) => Some(id),
            None => {
                proof {
                    assert(false);
                }
                vstd::pervasive::unreached()
            },
        },
        None => None,
    }
}

/// Derivation determinism: the derived address is a pure function of the
/// asset, seed and program; two derivations from equal inputs agree.
pub proof fn lemma_derivation_deterministic(
    asset1: Seq<u8>,
    seed1: Seq<char>,
    program1: Seq<u8>,
    asset2: Seq<u8>,
    seed2: Seq<char>,
    program2: Seq<u8>,
)
    requires
        asset1 == asset2,
        seed1 == seed2,
        program1 == program2,
    ensures
        derived_address(asset1, seed1, program1) == derived_address(asset2, seed2, program2),
{
}

/// Checks that a claimed account address is the legitimately derived address
/// for the asset. Succeeds exactly when the claimed address equals the fresh
/// derivation; any other outcome, including a seed or program the scheme
/// refuses, is an `AddressMismatch`.
pub fn verify_claimed_address(
    claimed: &Identity,
    asset: &Identity,
    program: &Identity,
    seed: &str,
) -> (r: Result<(), AuthError>)
    requires
        claimed.wf(),
        asset.wf(),
        program.wf(),
    ensures
        (r is Ok ==> claimed@ == derived_address(asset@, seed@, program@)),
        (r is Err ==> r->Err_0 == AuthError::AddressMismatch),
        (vstd::string::is_ascii(seed) && seed@.len() <= 32 && !is_pda_marked(program@)) ==> (
        r is Ok <==> claimed@ == derived_address(asset@, seed@, program@)),
{
    match derive_expected_address(asset, program, seed) {
        Some(expected) => {
            if claimed.same_as(&expected) {
                Ok(())
            } else {
                Err(AuthError::AddressMismatch)
            }
        },
        None => Err(AuthError::AddressMismatch),
    }
}

} // verus!
