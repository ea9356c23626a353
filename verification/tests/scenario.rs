use medchain::address::Address;
use medchain::error::MedChainError;
use medchain::events::{AccessGranted, MedicalRecordAdded};
use medchain::instructions::add_medical_record;
use medchain::instructions::add_medical_record::AddMedicalRecord;
use medchain::instructions::grant_access;
use medchain::instructions::grant_access::GrantAccess;
use medchain::instructions::initialize_doctor;
use medchain::instructions::initialize_doctor::InitializeDoctor;
use medchain::instructions::initialize_patient;
use medchain::instructions::initialize_patient::InitializePatient;
use medchain::instructions::rotate_record_key;
use medchain::instructions::rotate_record_key::RotateRecordKey;
use medchain::instructions::update_doctor_key;
use medchain::instructions::update_doctor_key::UpdateDoctorKey;

fn address(tag: u8) -> Address {
    Address::new([tag; 32])
}

#[test]
fn a_patient_shares_a_record_rotates_its_key_and_renews_the_doctors_copy() {
    let wallet = address(1);
    let patient_key = address(2);
    let record_key = address(3);
    let doctor_wallet = address(4);
    let locator = format!("Qm{}", "a".repeat(44));
    assert_eq!(locator.len(), 46);

    let (patient, _) = initialize_patient::handler(
        &InitializePatient { user: wallet, patient_account_key: patient_key, bump: 255 },
        900_000,
        String::from("P"),
    )
    .unwrap();
    assert_eq!(patient.record_count, 0);
    let (doctor, _) = initialize_doctor::handler(
        &InitializeDoctor { authority: doctor_wallet, doctor_account_key: address(5), bump: 255 },
        900_000,
        String::from("D"),
        String::from("Hematology"),
        String::from("LIC-1"),
    )
    .unwrap();
    assert_eq!(doctor.authority, doctor_wallet);

    // P creates record 0.
    let mut adding = AddMedicalRecord {
        authority: wallet,
        patient_key,
        patient_account: patient,
        medical_record_key: record_key,
        bump: 254,
    };
    let (record, added) = add_medical_record::handler(
        &mut adding,
        950_000,
        0,
        String::from("lab_result"),
        String::from("CBC panel"),
        locator.clone(),
        String::from("ciphertext"),
    )
    .unwrap();
    let patient = adding.patient_account;
    assert_eq!(patient.record_count, 1);
    assert_eq!(
        added,
        MedicalRecordAdded {
            patient: patient_key,
            record: record_key,
            record_id: 0,
            record_type: String::from("lab_result"),
            timestamp: 950_000,
        }
    );
    assert_eq!(record.record_id, 0);

    // P grants D access for 30 days at 1,000,000.
    let granting = GrantAccess {
        authority: wallet,
        patient_key,
        patient_account: patient,
        medical_record_key: record_key,
        medical_record: record,
        bump: 253,
    };
    let (grant, granted) = grant_access::handler(
        &granting,
        1_000_000,
        doctor_wallet,
        30,
        String::from("ciphertext-for-d"),
    )
    .unwrap();
    assert_eq!(grant.expires_at, 3_592_000);
    assert_eq!(grant.expires_at, 1_000_000 + 2_592_000);
    assert_eq!(grant.key_version, granting.medical_record.key_version);
    assert!(grant.is_active);
    assert_eq!(
        granted,
        AccessGranted {
            record: record_key,
            patient: patient_key,
            doctor: doctor_wallet,
            granted_at: 1_000_000,
            expires_at: 3_592_000,
            key_version: granting.medical_record.key_version,
        }
    );
    assert_eq!(grant.check_access(&granting.medical_record, 1_000_001), Ok(()));

    // P rotates the record's key: the grant is stale.
    let version_before = granting.medical_record.key_version;
    let mut rotating = RotateRecordKey {
        authority: wallet,
        patient_key,
        patient_account: granting.patient_account,
        medical_record_key: record_key,
        medical_record: granting.medical_record,
    };
    let rotated = rotate_record_key::handler(
        &mut rotating,
        1_100_000,
        locator,
        String::from("ciphertext-2"),
    )
    .unwrap();
    assert_eq!(rotated.new_key_version, version_before + 1);
    assert_eq!(rotating.medical_record.key_version, version_before + 1);
    assert!(grant.key_version < rotating.medical_record.key_version);
    assert_eq!(
        grant.check_access(&rotating.medical_record, 1_100_001),
        Err(MedChainError::AccessExpired)
    );

    // P renews D's copy: the grant is current again.
    let mut renewing = UpdateDoctorKey {
        authority: wallet,
        patient_key,
        patient_account: rotating.patient_account,
        medical_record_key: record_key,
        medical_record: rotating.medical_record,
        access_grant: grant,
    };
    let updated = update_doctor_key::handler(
        &mut renewing,
        1_200_000,
        String::from("ciphertext-2-for-d"),
    )
    .unwrap();
    assert_eq!(updated.key_version, version_before + 1);
    assert_eq!(updated.doctor, doctor_wallet);
    assert_eq!(renewing.access_grant.key_version, renewing.medical_record.key_version);
    assert_eq!(renewing.access_grant.encrypted_key, "ciphertext-2-for-d");
    assert_eq!(
        renewing.access_grant.check_access(&renewing.medical_record, 1_200_001),
        Ok(())
    );
    assert_eq!(
        renewing.access_grant.check_access(&renewing.medical_record, 3_592_000),
        Err(MedChainError::AccessExpired)
    );
}
