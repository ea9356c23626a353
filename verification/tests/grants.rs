use medchain::address::Address;
use medchain::constants::NEVER_EXPIRES;
use medchain::error::MedChainError;
use medchain::events::{AccessGranted, DoctorKeyUpdated};
use medchain::instructions::grant_access;
use medchain::instructions::grant_access::GrantAccess;
use medchain::instructions::revoke_access;
use medchain::instructions::revoke_access::RevokeAccess;
use medchain::instructions::update_doctor_key;
use medchain::instructions::update_doctor_key::UpdateDoctorKey;
use medchain::state::{AccessGrant, MedicalRecord, PatientAccount};

const AUTHORITY: u8 = 1;
const PATIENT: u8 = 2;
const RECORD: u8 = 3;
const DOCTOR: u8 = 4;

fn address(tag: u8) -> Address {
    Address::new([tag; 32])
}

fn text(len: usize) -> String {
    "k".repeat(len)
}

fn patient() -> PatientAccount {
    PatientAccount {
        authority: address(AUTHORITY),
        name: String::from("Ada"),
        record_count: 1,
        created_at: 500,
        bump: 254,
    }
}

fn record(key_version: u64) -> MedicalRecord {
    MedicalRecord {
        patient: address(PATIENT),
        record_id: 0,
        ipfs_hash: String::from("QmHash"),
        record_type: String::from("lab_result"),
        description: String::from("CBC panel"),
        created_at: 900,
        encrypted_key: String::from("patient-key"),
        key_version,
        bump: 253,
    }
}

fn granting(key_version: u64) -> GrantAccess {
    GrantAccess {
        authority: address(AUTHORITY),
        patient_key: address(PATIENT),
        patient_account: patient(),
        medical_record_key: address(RECORD),
        medical_record: record(key_version),
        bump: 252,
    }
}

fn grant(key_version: u64, expires_at: i64, is_active: bool) -> AccessGrant {
    AccessGrant {
        record: address(RECORD),
        patient: address(PATIENT),
        doctor: address(DOCTOR),
        encrypted_key: String::from("doctor-key"),
        key_version,
        granted_at: 1_000,
        expires_at,
        is_active,
        bump: 252,
    }
}

fn renewing(record_version: u64, held: AccessGrant) -> UpdateDoctorKey {
    UpdateDoctorKey {
        authority: address(AUTHORITY),
        patient_key: address(PATIENT),
        patient_account: patient(),
        medical_record_key: address(RECORD),
        medical_record: record(record_version),
        access_grant: held,
    }
}

fn revoking(held: AccessGrant) -> RevokeAccess {
    RevokeAccess {
        authority: address(AUTHORITY),
        patient_key: address(PATIENT),
        patient_account: patient(),
        access_grant: held,
    }
}

#[test]
fn a_grant_carries_the_records_key_version_and_is_active() {
    let (created, event) =
        grant_access::handler(&granting(6), 1_000, address(DOCTOR), 30, String::from("doctor-key"))
            .unwrap();
    assert_eq!(created, grant(6, 1_000 + 30 * 86_400, true));
    assert_eq!(created.expires_at, 2_593_000);
    assert_eq!(
        event,
        AccessGranted {
            record: address(RECORD),
            patient: address(PATIENT),
            doctor: address(DOCTOR),
            granted_at: 1_000,
            expires_at: 2_593_000,
            key_version: 6,
        }
    );
}

#[test]
fn a_grant_for_zero_days_is_valid_at_any_time() {
    let (created, event) =
        grant_access::handler(&granting(0), 1_000, address(DOCTOR), 0, text(1)).unwrap();
    assert_eq!(created.expires_at, NEVER_EXPIRES);
    assert_eq!(event.expires_at, NEVER_EXPIRES);
    for now in [i64::MIN, -1, 0, 999, 1_000, 1_001, 4_000_000_000, i64::MAX - 1, i64::MAX] {
        assert_eq!(created.check_access(&record(0), now), Ok(()));
    }
}

#[test]
fn a_grant_for_some_days_is_valid_until_its_expiry() {
    let (created, _) =
        grant_access::handler(&granting(0), 1_000, address(DOCTOR), 2, text(1)).unwrap();
    assert_eq!(created.granted_at, 1_000);
    assert_eq!(created.expires_at, 173_800);
    for now in [i64::MIN, 0, 1_000, 173_799] {
        assert_eq!(created.check_access(&record(0), now), Ok(()));
    }
    for now in [173_800, 173_801, i64::MAX] {
        assert_eq!(created.check_access(&record(0), now), Err(MedChainError::AccessExpired));
    }
}

#[test]
fn an_expiry_on_the_last_timestamp_reads_as_never() {
    let (created, _) =
        grant_access::handler(&granting(0), i64::MAX - 86_400, address(DOCTOR), 1, text(1))
            .unwrap();
    assert_eq!(created.expires_at, i64::MAX);
    assert_eq!(created.check_access(&record(0), i64::MAX), Ok(()));
}

#[test]
fn a_duration_that_overflows_creates_no_grant() {
    let days = 106_751_991_167_301u64;
    assert_eq!(
        grant_access::handler(&granting(0), 1_000, address(DOCTOR), days, text(1)),
        Err(MedChainError::ArithmeticOverflow)
    );
    assert_eq!(
        grant_access::handler(&granting(0), i64::MAX, address(DOCTOR), 1, text(1)),
        Err(MedChainError::ArithmeticOverflow)
    );
    assert_eq!(
        grant_access::handler(&granting(0), 0, address(DOCTOR), u64::MAX, text(1)),
        Err(MedChainError::ArithmeticOverflow)
    );
}

#[test]
fn a_grant_key_at_the_limit_is_accepted_and_over_it_refused() {
    let (created, _) =
        grant_access::handler(&granting(0), 1, address(DOCTOR), 1, text(128)).unwrap();
    assert_eq!(created.encrypted_key, text(128));
    assert_eq!(
        grant_access::handler(&granting(0), 1, address(DOCTOR), 1, text(129)),
        Err(MedChainError::EncryptedKeyTooLong)
    );
    // The key is checked before the expiry.
    assert_eq!(
        grant_access::handler(&granting(0), i64::MAX, address(DOCTOR), 1, text(129)),
        Err(MedChainError::EncryptedKeyTooLong)
    );
}

#[test]
fn only_the_owner_grants_access() {
    let mut ctx = granting(0);
    ctx.authority = address(DOCTOR);
    assert_eq!(
        grant_access::handler(&ctx, 1, address(DOCTOR), 1, text(1)),
        Err(MedChainError::Unauthorized)
    );
    let mut ctx = granting(0);
    ctx.medical_record.patient = address(9);
    assert_eq!(
        grant_access::handler(&ctx, 1, address(DOCTOR), 1, text(1)),
        Err(MedChainError::Unauthorized)
    );
    // Who may not ask is told so before anything else is looked at.
    assert_eq!(
        grant_access::handler(&ctx, i64::MAX, address(DOCTOR), 1, text(129)),
        Err(MedChainError::Unauthorized)
    );
}

#[test]
fn access_needs_an_active_unexpired_current_grant() {
    let valid = grant(3, 5_000, true);
    assert_eq!(valid.check_access(&record(3), 4_999), Ok(()));
    assert_eq!(valid.check_access(&record(3), 5_000), Err(MedChainError::AccessExpired));
    assert_eq!(valid.check_access(&record(4), 4_999), Err(MedChainError::AccessExpired));
    assert_eq!(valid.check_access(&record(2), 4_999), Err(MedChainError::AccessExpired));
    let revoked = grant(3, 5_000, false);
    assert_eq!(revoked.check_access(&record(3), 4_999), Err(MedChainError::AccessRevoked));
    assert_eq!(revoked.check_access(&record(4), 5_000), Err(MedChainError::AccessRevoked));
    let unlimited = grant(3, NEVER_EXPIRES, true);
    assert_eq!(unlimited.check_access(&record(3), i64::MAX), Ok(()));
    assert_eq!(unlimited.check_access(&record(4), 0), Err(MedChainError::AccessExpired));
    // An expiry of zero is a time like any other.
    let at_zero = grant(3, 0, true);
    assert_eq!(at_zero.check_access(&record(3), -1), Ok(()));
    assert_eq!(at_zero.check_access(&record(3), 0), Err(MedChainError::AccessExpired));
}

#[test]
fn a_renewal_stores_the_key_and_catches_up_with_the_record() {
    let mut ctx = renewing(9, grant(6, 5_000, true));
    let event = update_doctor_key::handler(&mut ctx, 3_000, String::from("fresh")).unwrap();
    assert_eq!(
        event,
        DoctorKeyUpdated {
            record: address(RECORD),
            doctor: address(DOCTOR),
            patient: address(PATIENT),
            key_version: 9,
            updated_at: 3_000,
        }
    );
    let mut renewed = grant(9, 5_000, true);
    renewed.encrypted_key = String::from("fresh");
    assert_eq!(ctx, renewing(9, renewed));
}

#[test]
fn a_renewal_does_not_extend_the_expiry() {
    let mut ctx = renewing(9, grant(6, 5_000, true));
    update_doctor_key::handler(&mut ctx, 6_000, text(1)).unwrap();
    assert_eq!(ctx.access_grant.expires_at, 5_000);
    assert_eq!(ctx.access_grant.granted_at, 1_000);
    assert_eq!(
        ctx.access_grant.check_access(&ctx.medical_record, 6_000),
        Err(MedChainError::AccessExpired)
    );
}

#[test]
fn a_revoked_grant_is_not_renewed() {
    let mut ctx = renewing(9, grant(6, 5_000, false));
    assert_eq!(
        update_doctor_key::handler(&mut ctx, 3_000, text(1)),
        Err(MedChainError::AccessRevoked)
    );
    assert_eq!(ctx, renewing(9, grant(6, 5_000, false)));
}

#[test]
fn a_renewal_key_at_the_limit_is_accepted_and_over_it_refused() {
    let mut ctx = renewing(9, grant(6, 5_000, true));
    assert_eq!(
        update_doctor_key::handler(&mut ctx, 3_000, text(129)),
        Err(MedChainError::EncryptedKeyTooLong)
    );
    assert_eq!(ctx, renewing(9, grant(6, 5_000, true)));
    update_doctor_key::handler(&mut ctx, 3_000, text(128)).unwrap();
    assert_eq!(ctx.access_grant.encrypted_key, text(128));
    // The key is checked before the grant's state.
    let mut ctx = renewing(9, grant(6, 5_000, false));
    assert_eq!(
        update_doctor_key::handler(&mut ctx, 3_000, text(129)),
        Err(MedChainError::EncryptedKeyTooLong)
    );
}

#[test]
fn a_renewal_needs_entities_that_belong_together() {
    let mut wrong_caller = renewing(9, grant(6, 5_000, true));
    wrong_caller.authority = address(DOCTOR);
    let mut foreign_record = renewing(9, grant(6, 5_000, true));
    foreign_record.medical_record.patient = address(9);
    let mut foreign_grant = renewing(9, grant(6, 5_000, true));
    foreign_grant.access_grant.patient = address(9);
    let mut other_record = renewing(9, grant(6, 5_000, true));
    other_record.access_grant.record = address(9);
    for mut ctx in [wrong_caller, foreign_record, foreign_grant, other_record] {
        let before = ctx.clone();
        assert_eq!(
            update_doctor_key::handler(&mut ctx, 3_000, text(1)),
            Err(MedChainError::Unauthorized)
        );
        assert_eq!(ctx, before);
    }
}

#[test]
fn a_revocation_deactivates_the_grant() {
    let mut ctx = revoking(grant(6, NEVER_EXPIRES, true));
    assert_eq!(ctx.access_grant.check_access(&record(6), 1), Ok(()));
    assert_eq!(revoke_access::handler(&mut ctx), Ok(()));
    assert_eq!(ctx, revoking(grant(6, NEVER_EXPIRES, false)));
    assert_eq!(ctx.access_grant.check_access(&record(6), 1), Err(MedChainError::AccessRevoked));
    // Revoking again changes nothing.
    assert_eq!(revoke_access::handler(&mut ctx), Ok(()));
    assert_eq!(ctx, revoking(grant(6, NEVER_EXPIRES, false)));
}

#[test]
fn only_the_owner_revokes_a_grant() {
    let mut ctx = revoking(grant(6, 5_000, true));
    ctx.authority = address(DOCTOR);
    let before = ctx.clone();
    assert_eq!(revoke_access::handler(&mut ctx), Err(MedChainError::Unauthorized));
    assert_eq!(ctx, before);
    let mut ctx = revoking(grant(6, 5_000, true));
    ctx.access_grant.patient = address(9);
    let before = ctx.clone();
    assert_eq!(revoke_access::handler(&mut ctx), Err(MedChainError::Unauthorized));
    assert_eq!(ctx, before);
}

#[test]
fn the_grant_allocation_has_its_documented_size() {
    assert_eq!(AccessGrant::LEN, 8 + 32 + 32 + 32 + 132 + 8 + 8 + 8 + 1 + 1);
}
