//! License record codec.
//!
//! A license record travels as a fixed binary layout of 121 bytes:
//! one status byte, three 32-byte identifiers (licensor, licensee, asset),
//! then three little-endian 8-byte integers (amount, start, end). Decoding is
//! total and deterministic and validates structure only; semantic checks
//! (time ordering, identities) belong to the decision engine.

use vstd::prelude::*;
use crate::errors::AuthError;
use crate::identity::{Identity, ID_LEN};

verus! {

/// Total length in bytes of an encoded license record.
pub const REC_LEN: usize = 121;

/// The stored lifecycle state of a license, distinct from time-window expiry,
/// which is computed from the timestamps, not stored.
#[derive(Clone, Copy, Debug, PartialEq, Eq, Structural)]
pub enum LicenseStatus {
    Pending,
    Active,
    Revoked,
    ExpiredByIssuer,
}

/// The byte that encodes each status.
pub open spec fn spec_status_byte(s: LicenseStatus) -> u8 {
    match s {
        LicenseStatus::Pending => 0,
        LicenseStatus::Active => 1,
        LicenseStatus::Revoked => 2,
        LicenseStatus::ExpiredByIssuer => 3,
    }
}

/// The status a byte decodes to, if any.
pub open spec fn spec_status_of_byte(b: u8) -> Option<LicenseStatus> {
    if b == 0 {
        Some(LicenseStatus::Pending)
    } else if b == 1 {
        Some(LicenseStatus::Active)
    } else if b == 2 {
        Some(LicenseStatus::Revoked)
    } else if b == 3 {
        Some(LicenseStatus::ExpiredByIssuer)
    } else {
        None
    }
}

/// Encodes a status as its byte.
pub fn status_to_byte(s: LicenseStatus) -> (b: u8)
    ensures
        b == spec_status_byte(s),
{
    match s {
        LicenseStatus::Pending => 0,
        LicenseStatus::Active => 1,
        LicenseStatus::Revoked => 2,
        LicenseStatus::ExpiredByIssuer => 3,
    }
}

/// Decodes a status byte; bytes outside the enumeration yield `None`.
pub fn status_from_byte(b: u8) -> (s: Option<LicenseStatus>)
    ensures
        s == spec_status_of_byte(b),
{
    if b == 0 {
        Some(LicenseStatus::Pending)
    } else if b == 1 {
        Some(LicenseStatus::Active)
    } else if b == 2 {
        Some(LicenseStatus::Revoked)
    } else if b == 3 {
        Some(LicenseStatus::ExpiredByIssuer)
    } else {
        None
    }
}

/// A decoded license record: who licensed what, to whom, and for which time
/// window. Immutable once decoded; the engine only reads it.
#[derive(Debug)]
pub struct LicenseAccount {
    pub status: LicenseStatus,
    pub licensor_pubkey: Identity,
    pub licensee_pubkey: Identity,
    pub asset_pubkey: Identity,
    pub license_amount: u64,
    /// Unix timestamp at which the license becomes valid (inclusive).
    pub license_start: i64,
    /// Unix timestamp at which the license ends (inclusive).
    pub license_end: i64,
}

/// The mathematical shape of a license record, with identifiers as byte
/// sequences.
#[verifier::ext_equal]
pub struct RecordModel {
    pub status: LicenseStatus,
    pub licensor: Seq<u8>,
    pub licensee: Seq<u8>,
    pub asset: Seq<u8>,
    pub amount: u64,
    pub start: i64,
    pub end: i64,
}

impl View for LicenseAccount {
    type V = RecordModel;

    open spec fn view(&self) -> RecordModel {
        RecordModel {
            status: self.status,
            licensor: self.licensor_pubkey@,
            licensee: self.licensee_pubkey@,
            asset: self.asset_pubkey@,
            amount: self.license_amount,
            start: self.license_start,
            end: self.license_end,
        }
    }
}

impl RecordModel {
    /// Structural well-formedness: every identifier holds exactly 32 bytes.
    pub open spec fn wf(&self) -> bool {
        self.licensor.len() == ID_LEN && self.licensee.len() == ID_LEN && self.asset.len()
            == ID_LEN
    }

    /// A record whose window is reversed is malformed, not merely never
    /// active.
    pub open spec fn time_ordered(&self) -> bool {
        self.start <= self.end
    }
}

impl LicenseAccount {
    /// Structural well-formedness of the executable record.
    pub open spec fn wf(&self) -> bool {
        self@.wf()
    }
}

/// The little-endian bytes of a 64-bit unsigned integer.
pub open spec fn u64_le_bytes(x: u64) -> Seq<u8> {
    seq![
        (x & 0xff) as u8,
        ((x >> 8) & 0xff) as u8,
        ((x >> 16) & 0xff) as u8,
        ((x >> 24) & 0xff) as u8,
        ((x >> 32) & 0xff) as u8,
        ((x >> 40) & 0xff) as u8,
        ((x >> 48) & 0xff) as u8,
        ((x >> 56) & 0xff) as u8,
    ]
}

/// The 64-bit unsigned integer read from eight little-endian bytes.
pub open spec fn u64_of_le_bytes(s: Seq<u8>) -> u64
    recommends
        s.len() == 8,
{
    (s[0] as u64) | (s[1] as u64) << 8 | (s[2] as u64) << 16 | (s[3] as u64) << 24 | (s[4] as u64)
        << 32 | (s[5] as u64) << 40 | (s[6] as u64) << 48 | (s[7] as u64) << 56
}

/// The little-endian bytes of a 64-bit signed integer (two's complement).
pub open spec fn i64_le_bytes(x: i64) -> Seq<u8> {
    u64_le_bytes(x as u64)
}

/// The 64-bit signed integer read from eight little-endian bytes.
pub open spec fn i64_of_le_bytes(s: Seq<u8>) -> i64
    recommends
        s.len() == 8,
{
    u64_of_le_bytes(s) as i64
}

/// Reading back the little-endian bytes of an unsigned integer yields the
/// integer.
pub proof fn lemma_u64_le_round_trip(x: u64)
    ensures
        u64_of_le_bytes(u64_le_bytes(x)) == x,
{
    let b0 = (x & 0xff) as u8;
    let b1 = ((x >> 8) & 0xff) as u8;
    let b2 = ((x >> 16) & 0xff) as u8;
    let b3 = ((x >> 24) & 0xff) as u8;
    let b4 = ((x >> 32) & 0xff) as u8;
    let b5 = ((x >> 40) & 0xff) as u8;
    let b6 = ((x >> 48) & 0xff) as u8;
    let b7 = ((x >> 56) & 0xff) as u8;
    assert(x == (b0 as u64) | (b1 as u64) << 8 | (b2 as u64) << 16 | (b3 as u64) << 24 | (
    b4 as u64) << 32 | (b5 as u64) << 40 | (b6 as u64) << 48 | (b7 as u64) << 56)
        by (bit_vector)
        requires
            b0 == (x & 0xff) as u8,
            b1 == ((x >> 8) & 0xff) as u8,
            b2 == ((x >> 16) & 0xff) as u8,
            b3 == ((x >> 24) & 0xff) as u8,
            b4 == ((x >> 32) & 0xff) as u8,
            b5 == ((x >> 40) & 0xff) as u8,
            b6 == ((x >> 48) & 0xff) as u8,
            b7 == ((x >> 56) & 0xff) as u8,
    ;
}

/// Reading back the little-endian bytes of a signed integer yields the
/// integer.
pub proof fn lemma_i64_le_round_trip(x: i64)
    ensures
        i64_of_le_bytes(i64_le_bytes(x)) == x,
{
    lemma_u64_le_round_trip(x as u64);
    assert(((x as u64) as i64) == x) by (bit_vector);
}

/// The encoded bytes of a record: status, licensor, licensee, asset, amount,
/// start, end, in that order.
pub open spec fn encode_model(m: RecordModel) -> Seq<u8> {
    seq![spec_status_byte(m.status)] + m.licensor + m.licensee + m.asset + u64_le_bytes(m.amount)
        + i64_le_bytes(m.start) + i64_le_bytes(m.end)
}

/// The record that a byte string decodes to, if it is structurally well
/// formed: at least 121 bytes, with a status byte inside the enumeration.
pub open spec fn decode_model(b: Seq<u8>) -> Option<RecordModel> {
    if b.len() < REC_LEN {
        None
    } else {
        match spec_status_of_byte(b[0]) {
            None => None,
            Some(st) => Some(
                RecordModel {
                    status: st,
                    licensor: b.subrange(1, 33),
                    licensee: b.subrange(33, 65),
                    asset: b.subrange(65, 97),
                    amount: u64_of_le_bytes(b.subrange(97, 105)),
                    start: i64_of_le_bytes(b.subrange(105, 113)),
                    end: i64_of_le_bytes(b.subrange(113, 121)),
                },
            ),
        }
    }
}

/// Round-trip law: decoding the encoding of any structurally well-formed
/// record yields that record again.
pub proof fn lemma_round_trip(m: RecordModel)
    requires
        m.wf(),
    ensures
        decode_model(encode_model(m)) == Some(m),
{
    let e = encode_model(m);
    assert(e.len() == REC_LEN);
    assert(e[0] == spec_status_byte(m.status));
    assert(spec_status_of_byte(spec_status_byte(m.status)) == Some(m.status));
    assert(e.subrange(1, 33) =~= m.licensor);
    assert(e.subrange(33, 65) =~= m.licensee);
    assert(e.subrange(65, 97) =~= m.asset);
    assert(e.subrange(97, 105) =~= u64_le_bytes(m.amount));
    assert(e.subrange(105, 113) =~= i64_le_bytes(m.start));
    assert(e.subrange(113, 121) =~= i64_le_bytes(m.end));
    lemma_u64_le_round_trip(m.amount);
    lemma_i64_le_round_trip(m.start);
    lemma_i64_le_round_trip(m.end);
    assert(decode_model(e)->Some_0 =~= m);
}

/// Appends the little-endian bytes of an unsigned integer.
pub(crate) fn push_u64_le(out: &mut Vec<u8>, x: u64)
    ensures
        final(out)@ == old(out)@ + u64_le_bytes(x),
{
    proof {
        assert((x & 0xff) < 256 && ((x >> 8) & 0xff) < 256 && ((x >> 16) & 0xff) < 256 && ((x
            >> 24) & 0xff) < 256 && ((x >> 32) & 0xff) < 256 && ((x >> 40) & 0xff) < 256 && ((x
            >> 48) & 0xff) < 256 && ((x >> 56) & 0xff) < 256) by (bit_vector);
    }
    out.push((x & 0xff) as u8);
    out.push(((x >> 8) & 0xff) as u8);
    out.push(((x >> 16) & 0xff) as u8);
    out.push(((x >> 24) & 0xff) as u8);
    out.push(((x >> 32) & 0xff) as u8);
    out.push(((x >> 40) & 0xff) as u8);
    out.push(((x >> 48) & 0xff) as u8);
    out.push(((x >> 56) & 0xff) as u8);
    proof {
        assert(out@ =~= old(out)@ + u64_le_bytes(x));
    }
}

/// Appends the little-endian bytes of a signed integer.
pub(crate) fn push_i64_le(out: &mut Vec<u8>, x: i64)
    ensures
        final(out)@ == old(out)@ + i64_le_bytes(x),
{
    let u: u64 = #[verifier::truncate] (x as u64);
    push_u64_le(out, u);
}

/// Reads an unsigned integer from eight little-endian bytes at an offset.
fn read_u64_le(bytes: &Vec<u8>, off: usize) -> (x: u64)
    requires
        off + 8 <= bytes@.len(),
    ensures
        x == u64_of_le_bytes(bytes@.subrange(off as int, off as int + 8)),
{
    let n: usize = bytes.len();
    let x: u64 = (bytes[off] as u64) | (bytes[off + 1] as u64) << 8 | (bytes[off + 2] as u64) << 16
        | (bytes[off + 3] as u64) << 24 | (bytes[off + 4] as u64) << 32 | (bytes[off + 5] as u64)
        << 40 | (bytes[off + 6] as u64) << 48 | (bytes[off + 7] as u64) << 56;
    proof {
        let s = bytes@.subrange(off as int, off as int + 8);
        assert(s[0] == bytes@[off as int]);
        assert(s[1] == bytes@[off as int + 1]);
        assert(s[2] == bytes@[off as int + 2]);
        assert(s[3] == bytes@[off as int + 3]);
        assert(s[4] == bytes@[off as int + 4]);
        assert(s[5] == bytes@[off as int + 5]);
        assert(s[6] == bytes@[off as int + 6]);
        assert(s[7] == bytes@[off as int + 7]);
    }
    x
}

/// Reads a signed integer from eight little-endian bytes at an offset.
fn read_i64_le(bytes: &Vec<u8>, off: usize) -> (x: i64)
    requires
        off + 8 <= bytes@.len(),
    ensures
        x == i64_of_le_bytes(bytes@.subrange(off as int, off as int + 8)),
{
    let u: u64 = read_u64_le(bytes, off);
    #[verifier::truncate] (u as i64)
}

/// Copies 32 bytes at an offset into a fresh identifier.
fn read_identity(bytes: &Vec<u8>, off: usize) -> (id: Identity)
    requires
        off + ID_LEN <= bytes@.len(),
    ensures
        id.wf(),
        id@ == bytes@.subrange(off as int, off as int + ID_LEN),
{
    let n: usize = bytes.len();
    let mut raw: Vec<u8> = Vec::new();
    for i in 0..ID_LEN
        invariant
            n == bytes@.len(),
            off + ID_LEN <= bytes@.len(),
            raw@ == bytes@.subrange(off as int, off as int + i),
    {
        raw.push(bytes[off + i]);
        proof {
            assert(raw@ =~= bytes@.subrange(off as int, off as int + i + 1));
        }
    }
    match Identity::from_bytes(raw) {
        Some(id) => id,
        None => {
            proof {
                assert(false);
            }
            vstd::pervasive::unreached()
        },
    }
}

/// Encodes a record into its 121-byte layout.
pub fn encode(rec: &LicenseAccount) -> (out: Vec<u8>)
    requires
        rec.wf(),
    ensures
        out@ == encode_model(rec@),
        out@.len() == REC_LEN,
{
    let mut out: Vec<u8> = Vec::new();
    out.push(status_to_byte(rec.status));
    rec.licensor_pubkey.append_to(&mut out);
    rec.licensee_pubkey.append_to(&mut out);
    rec.asset_pubkey.append_to(&mut out);
    push_u64_le(&mut out, rec.license_amount);
    push_i64_le(&mut out, rec.license_start);
    push_i64_le(&mut out, rec.license_end);
    proof {
        assert(out@ =~= encode_model(rec@));
    }
    out
}

/// Decodes raw account bytes into a record, or reports exactly why the bytes
/// are not a structurally well-formed record. Never panics and performs no
/// semantic validation.
pub fn decode(bytes: &Vec<u8>) -> (r: Result<LicenseAccount, AuthError>)
    ensures
        match r {
            Ok(rec) => decode_model(bytes@) == Some(rec@) && rec.wf(),
            Err(e) => e == AuthError::DecodeError && decode_model(bytes@) is None,
        },
{
    if bytes.len() < REC_LEN {
        return Err(AuthError::DecodeError);
    }
    let status = match status_from_byte(bytes[0]) {
        Some(s) => s,
        None => {
            return Err(AuthError::DecodeError);
        },
    };
    let rec = LicenseAccount {
        status,
        licensor_pubkey: read_identity(bytes, 1),
        licensee_pubkey: read_identity(bytes, 33),
        asset_pubkey: read_identity(bytes, 65),
        license_amount: read_u64_le(bytes, 97),
        license_start: read_i64_le(bytes, 105),
        license_end: read_i64_le(bytes, 113),
    };
    proof {
        assert(rec@ =~= decode_model(bytes@)->Some_0);
    }
    Ok(rec)
}

} // verus!
