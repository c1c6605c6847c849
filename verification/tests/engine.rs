use license_engine::codec::{decode, encode, status_from_byte, status_to_byte, LicenseAccount, LicenseStatus};
use license_engine::decision::{decide, AuthorizeRequest, Decision};
use license_engine::derivation::derive_expected_address;
use license_engine::engine::{authorize, EngineConfig, FetchOutcome};
use license_engine::errors::{AuthError, DenialReason};
use license_engine::grant::issue;
use license_engine::identity::Identity;
use license_engine::index;
use solana_sdk::signature::Keypair;

fn id(tag: u8) -> Identity {
    Identity::from_bytes(vec![tag; 32]).unwrap()
}

fn program_identity() -> Identity {
    id(0xAB)
}

fn record(status: LicenseStatus, licensee: u8, asset: u8, start: i64, end: i64) -> LicenseAccount {
    LicenseAccount {
        status,
        licensor_pubkey: id(0x01),
        licensee_pubkey: id(licensee),
        asset_pubkey: id(asset),
        license_amount: 5_000,
        license_start: start,
        license_end: end,
    }
}

fn request_for(record: &LicenseAccount, requester: u8, duration: u64) -> AuthorizeRequest {
    let claimed = derive_expected_address(
        &record.asset_pubkey,
        &program_identity(),
        "license",
    )
    .unwrap();
    AuthorizeRequest {
        asset_requested: record.asset_pubkey.dup(),
        claimed_license_location: claimed,
        requesting_identity: id(requester),
        requested_duration: duration,
    }
}

fn config() -> EngineConfig {
    EngineConfig::new(program_identity(), Keypair::new()).unwrap()
}

#[test]
fn test_hello() {
    let greeting = index();
    assert_eq!(greeting, "Hello, AWS!");
    assert_eq!(greeting.len(), 11);
}

#[test]
fn test_round_trip() {
    let original = record(LicenseStatus::Active, 0x22, 0x33, 1_000, 2_000);
    let bytes = encode(&original);
    assert_eq!(bytes.len(), 121);
    let decoded = decode(&bytes).unwrap();
    assert_eq!(decoded.status, LicenseStatus::Active);
    assert!(decoded.licensor_pubkey.same_as(&original.licensor_pubkey));
    assert!(decoded.licensee_pubkey.same_as(&original.licensee_pubkey));
    assert!(decoded.asset_pubkey.same_as(&original.asset_pubkey));
    assert_eq!(decoded.license_amount, original.license_amount);
    assert_eq!(decoded.license_start, original.license_start);
    assert_eq!(decoded.license_end, original.license_end);
}

#[test]
fn test_round_trip_negative_timestamps() {
    let original = record(LicenseStatus::Pending, 0x22, 0x33, -5_000, -1);
    let decoded = decode(&encode(&original)).unwrap();
    assert_eq!(decoded.license_start, -5_000);
    assert_eq!(decoded.license_end, -1);
}

#[test]
fn test_decode_short_bytes() {
    let outcome = decode(&vec![0u8; 50]);
    assert_eq!(outcome.unwrap_err(), AuthError::DecodeError);
}

#[test]
fn test_decode_unknown_status() {
    let mut bytes = encode(&record(LicenseStatus::Active, 0x22, 0x33, 0, 10));
    bytes[0] = 9;
    assert_eq!(decode(&bytes).unwrap_err(), AuthError::DecodeError);
}

#[test]
fn test_decode_ignores_trailing_bytes() {
    let mut bytes = encode(&record(LicenseStatus::Revoked, 0x22, 0x33, 0, 10));
    bytes.push(0xFF);
    let decoded = decode(&bytes).unwrap();
    assert_eq!(decoded.status, LicenseStatus::Revoked);
}

#[test]
fn test_status_byte_codec() {
    let statuses = [
        LicenseStatus::Pending,
        LicenseStatus::Active,
        LicenseStatus::Revoked,
        LicenseStatus::ExpiredByIssuer,
    ];
    for status in statuses {
        assert_eq!(status_from_byte(status_to_byte(status)), Some(status));
    }
    assert_eq!(status_from_byte(4), None);
}

#[test]
fn test_derivation_deterministic() {
    let asset = id(0x33);
    let program = program_identity();
    let first = derive_expected_address(&asset, &program, "license").unwrap();
    let second = derive_expected_address(&asset, &program, "license").unwrap();
    assert!(first.same_as(&second));
    // The derivation is a hash, not a copy of its inputs.
    assert!(!first.same_as(&asset));
    assert!(!first.same_as(&program));
    // A different asset lands at a different address.
    let other = derive_expected_address(&id(0x34), &program, "license").unwrap();
    assert!(!first.same_as(&other));
}

#[test]
fn test_derivation_rejects_long_seed() {
    let asset = id(0x33);
    let program = program_identity();
    let long_seed = "a-seed-well-beyond-thirty-two-bytes-long";
    assert!(derive_expected_address(&asset, &program, long_seed).is_none());
}

#[test]
fn test_time_window_boundaries() {
    let rec = record(LicenseStatus::Active, 0x22, 0x33, 1000, 2000);
    let req = request_for(&rec, 0x22, 10);
    assert!(matches!(
        decide(&rec, &req, 999),
        Decision::Denied(DenialReason::LicenseNotYetStarted)
    ));
    assert!(matches!(decide(&rec, &req, 1000), Decision::Approved(_)));
    assert!(matches!(decide(&rec, &req, 2000), Decision::Approved(_)));
    assert!(matches!(
        decide(&rec, &req, 2001),
        Decision::Denied(DenialReason::LicenseExpired)
    ));
}

#[test]
fn test_identity_mismatch() {
    let rec = record(LicenseStatus::Active, 0x22, 0x33, 1000, 2000);
    let req = request_for(&rec, 0x23, 10);
    assert!(matches!(
        decide(&rec, &req, 1500),
        Decision::Denied(DenialReason::LicenseeMismatch)
    ));
    // The mismatch also denies through the whole pipeline.
    let fetched = FetchOutcome::Bytes(encode(&rec));
    let outcome = authorize(&config(), &req, fetched, 1500);
    assert_eq!(
        outcome.unwrap_err(),
        AuthError::Denied(DenialReason::LicenseeMismatch)
    );
}

#[test]
fn test_asset_not_covered() {
    let rec = record(LicenseStatus::Active, 0x22, 0x33, 1000, 2000);
    let mut req = request_for(&rec, 0x22, 10);
    // Claim the right location for the record's asset but ask for another.
    req.asset_requested = id(0x44);
    req.claimed_license_location =
        derive_expected_address(&req.asset_requested, &program_identity(), "license").unwrap();
    let fetched = FetchOutcome::Bytes(encode(&rec));
    let outcome = authorize(&config(), &req, fetched, 1500);
    assert_eq!(
        outcome.unwrap_err(),
        AuthError::Denied(DenialReason::AssetNotCovered)
    );
}

#[test]
fn test_address_spoofing_rejected() {
    let rec = record(LicenseStatus::Active, 0x22, 0x33, 1000, 2000);
    let mut req = request_for(&rec, 0x22, 10);
    // A decodable, otherwise approvable record at an address that is not the
    // derived address for the claimed asset.
    req.claimed_license_location = id(0x55);
    let fetched = FetchOutcome::Bytes(encode(&rec));
    let outcome = authorize(&config(), &req, fetched, 1500);
    assert_eq!(outcome.unwrap_err(), AuthError::AddressMismatch);
}

#[test]
fn test_reversed_window_is_malformed() {
    let rec = record(LicenseStatus::Active, 0x22, 0x33, 2000, 1000);
    let req = request_for(&rec, 0x22, 10);
    let fetched = FetchOutcome::Bytes(encode(&rec));
    let outcome = authorize(&config(), &req, fetched, 1500);
    assert_eq!(outcome.unwrap_err(), AuthError::DecodeError);
}

#[test]
fn test_ledger_unavailable() {
    let rec = record(LicenseStatus::Active, 0x22, 0x33, 1000, 2000);
    let req = request_for(&rec, 0x22, 10);
    let outcome = authorize(&config(), &req, FetchOutcome::Unavailable, 1500);
    assert_eq!(outcome.unwrap_err(), AuthError::LedgerUnavailable);
}

#[test]
fn test_account_not_found() {
    let rec = record(LicenseStatus::Active, 0x22, 0x33, 1000, 2000);
    let req = request_for(&rec, 0x22, 10);
    let outcome = authorize(&config(), &req, FetchOutcome::NotFound, 1500);
    assert_eq!(outcome.unwrap_err(), AuthError::AccountNotFound);
}

#[test]
fn test_empty_account_is_not_found() {
    let rec = record(LicenseStatus::Active, 0x22, 0x33, 1000, 2000);
    let req = request_for(&rec, 0x22, 10);
    let outcome = authorize(&config(), &req, FetchOutcome::Bytes(Vec::new()), 1500);
    assert_eq!(outcome.unwrap_err(), AuthError::AccountNotFound);
}

#[test]
fn test_scenario_approved() {
    let rec = record(LicenseStatus::Active, 0x22, 0x33, 1_700_000_000, 1_800_000_000);
    let req = request_for(&rec, 0x22, 1000);
    let fetched = FetchOutcome::Bytes(encode(&rec));
    let grant = authorize(&config(), &req, fetched, 1_700_500_000).unwrap();
    assert_eq!(grant.not_before, 1_700_500_000);
    assert_eq!(grant.not_after, 1_700_501_000);
    assert!(grant.subject.same_as(&req.requesting_identity));
    assert!(grant.scope.same_as(&req.asset_requested));
    assert_eq!(grant.signature.len(), 64);
}

#[test]
fn test_scenario_revoked() {
    let rec = record(LicenseStatus::Revoked, 0x22, 0x33, 1_700_000_000, 1_800_000_000);
    let req = request_for(&rec, 0x22, 1000);
    let fetched = FetchOutcome::Bytes(encode(&rec));
    let outcome = authorize(&config(), &req, fetched, 1_700_500_000);
    assert_eq!(
        outcome.unwrap_err(),
        AuthError::Denied(DenialReason::LicenseInactive(LicenseStatus::Revoked))
    );
}

#[test]
fn test_scenario_pending() {
    let rec = record(LicenseStatus::Pending, 0x22, 0x33, 1_700_000_000, 1_800_000_000);
    let req = request_for(&rec, 0x22, 1000);
    let fetched = FetchOutcome::Bytes(encode(&rec));
    let outcome = authorize(&config(), &req, fetched, 1_700_500_000);
    assert_eq!(
        outcome.unwrap_err(),
        AuthError::Denied(DenialReason::LicenseInactive(LicenseStatus::Pending))
    );
}

#[test]
fn test_grant_capped_at_license_end() {
    let rec = record(LicenseStatus::Active, 0x22, 0x33, 1000, 2000);
    let req = request_for(&rec, 0x22, u64::MAX);
    let fetched = FetchOutcome::Bytes(encode(&rec));
    let grant = authorize(&config(), &req, fetched, 1500).unwrap();
    assert_eq!(grant.not_after, 2000);
    assert!(grant.not_after <= rec.license_end);
}

#[test]
fn test_issue_zero_duration() {
    let key = Keypair::new();
    let subject = id(0x22);
    let scope = id(0x33);
    let outcome = issue(&key, &subject, &scope, 2000, 0, 1500);
    assert_eq!(outcome.unwrap_err(), DenialReason::LicenseExpired);
}

#[test]
fn test_issue_at_license_end() {
    let key = Keypair::new();
    let subject = id(0x22);
    let scope = id(0x33);
    // At the very end of the window there is nothing left to grant.
    let outcome = issue(&key, &subject, &scope, 2000, 1000, 2000);
    assert_eq!(outcome.unwrap_err(), DenialReason::LicenseExpired);
}

#[test]
fn test_config_rejects_reserved_program() {
    let mut bytes = vec![0x11u8; 11];
    bytes.extend_from_slice(b"ProgramDerivedAddress");
    let marked = Identity::from_bytes(bytes).unwrap();
    assert!(EngineConfig::new(marked, Keypair::new()).is_none());
}
