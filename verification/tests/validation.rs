use medchain::constants::{
    ENCRYPTED_KEY_LENGTH, IPFS_HASH_LENGTH, MAX_DESCRIPTION_LENGTH, MAX_LICENSE_ID_LENGTH,
    MAX_NAME_LENGTH, MAX_RECORD_TYPE_LENGTH, MAX_SPECIALIZATION_LENGTH, NEVER_EXPIRES,
    SECONDS_PER_DAY,
};
use medchain::error::MedChainError;
use medchain::validation::{check_len, checked_expiry, Field};

fn text(len: usize) -> String {
    "a".repeat(len)
}

const FIELDS: [Field; 7] = [
    Field::Name,
    Field::RecordType,
    Field::Description,
    Field::IpfsHash,
    Field::EncryptedKey,
    Field::Specialization,
    Field::LicenseId,
];

#[test]
fn limits_have_their_documented_values() {
    assert_eq!(MAX_NAME_LENGTH, 50);
    assert_eq!(MAX_RECORD_TYPE_LENGTH, 20);
    assert_eq!(MAX_DESCRIPTION_LENGTH, 200);
    assert_eq!(IPFS_HASH_LENGTH, 46);
    assert_eq!(ENCRYPTED_KEY_LENGTH, 128);
    assert_eq!(MAX_SPECIALIZATION_LENGTH, 50);
    assert_eq!(MAX_LICENSE_ID_LENGTH, 30);
    assert_eq!(SECONDS_PER_DAY, 86_400);
    assert_eq!(NEVER_EXPIRES, i64::MAX);
}

#[test]
fn each_field_has_its_limit_and_its_error() {
    assert_eq!(Field::Name.max_len(), 50);
    assert_eq!(Field::RecordType.max_len(), 20);
    assert_eq!(Field::Description.max_len(), 200);
    assert_eq!(Field::IpfsHash.max_len(), 46);
    assert_eq!(Field::EncryptedKey.max_len(), 128);
    assert_eq!(Field::Specialization.max_len(), 50);
    assert_eq!(Field::LicenseId.max_len(), 30);
    assert_eq!(Field::Name.too_long(), MedChainError::NameTooLong);
    assert_eq!(Field::RecordType.too_long(), MedChainError::RecordTypeTooLong);
    assert_eq!(Field::Description.too_long(), MedChainError::DescriptionTooLong);
    assert_eq!(Field::IpfsHash.too_long(), MedChainError::IpfsHashTooLong);
    assert_eq!(Field::EncryptedKey.too_long(), MedChainError::EncryptedKeyTooLong);
    assert_eq!(Field::Specialization.too_long(), MedChainError::SpecializationTooLong);
    assert_eq!(Field::LicenseId.too_long(), MedChainError::LicenseIdTooLong);
}

#[test]
fn check_len_accepts_the_empty_text() {
    for field in FIELDS {
        assert_eq!(check_len(field, ""), Ok(()));
    }
}

#[test]
fn check_len_accepts_exactly_the_limit() {
    for field in FIELDS {
        assert_eq!(check_len(field, &text(field.max_len())), Ok(()));
    }
}

#[test]
fn check_len_refuses_one_byte_more() {
    for field in FIELDS {
        assert_eq!(check_len(field, &text(field.max_len() + 1)), Err(field.too_long()));
    }
}

#[test]
fn check_len_counts_bytes_not_characters() {
    // 25 two-byte characters are 50 bytes; 26 are 52.
    let fits = "é".repeat(25);
    let too_long = "é".repeat(26);
    assert_eq!(fits.chars().count(), 25);
    assert_eq!(check_len(Field::Name, &fits), Ok(()));
    assert_eq!(check_len(Field::Name, &too_long), Err(MedChainError::NameTooLong));
    // 10 four-byte characters are 40 bytes, over the 30 of a license identifier.
    let wide = "𝄞".repeat(10);
    assert_eq!(check_len(Field::LicenseId, &wide), Err(MedChainError::LicenseIdTooLong));
    assert_eq!(check_len(Field::Name, &wide), Ok(()));
}

#[test]
fn expiry_of_zero_days_is_never() {
    assert_eq!(checked_expiry(0, 0), Ok(i64::MAX));
    assert_eq!(checked_expiry(1_000_000, 0), Ok(NEVER_EXPIRES));
    assert_eq!(checked_expiry(i64::MAX, 0), Ok(NEVER_EXPIRES));
    assert_eq!(checked_expiry(i64::MIN, 0), Ok(NEVER_EXPIRES));
}

#[test]
fn expiry_adds_whole_days_in_seconds() {
    assert_eq!(checked_expiry(1_000_000, 30), Ok(3_592_000));
    assert_eq!(checked_expiry(0, 1), Ok(86_400));
    assert_eq!(checked_expiry(-86_400, 1), Ok(0));
    assert_eq!(checked_expiry(1_700_000_000, 365), Ok(1_731_536_000));
}

#[test]
fn expiry_up_to_the_last_timestamp_is_computed() {
    // 106_751_991_167_300 days are 9_223_372_036_854_720_000 seconds.
    let days: u64 = 106_751_991_167_300;
    let seconds: i64 = 9_223_372_036_854_720_000;
    assert_eq!(checked_expiry(0, days), Ok(seconds));
    assert_eq!(checked_expiry(i64::MAX - seconds, days), Ok(i64::MAX));
    assert_eq!(checked_expiry(i64::MAX - 86_400, 1), Ok(i64::MAX));
}

#[test]
fn expiry_past_the_last_timestamp_overflows() {
    let days: u64 = 106_751_991_167_300;
    let seconds: i64 = 9_223_372_036_854_720_000;
    assert_eq!(checked_expiry(i64::MAX - seconds + 1, days), Err(MedChainError::ArithmeticOverflow));
    assert_eq!(checked_expiry(i64::MAX - 86_399, 1), Err(MedChainError::ArithmeticOverflow));
    assert_eq!(checked_expiry(i64::MAX, 1), Err(MedChainError::ArithmeticOverflow));
    assert_eq!(checked_expiry(1_000_000, 106_751_991_167_301), Err(MedChainError::ArithmeticOverflow));
}

#[test]
fn duration_that_does_not_fit_a_timestamp_overflows() {
    // The product fits 64 unsigned bits, not 63.
    assert_eq!(checked_expiry(0, 106_751_991_167_301), Err(MedChainError::ArithmeticOverflow));
    assert_eq!(checked_expiry(-1, 213_503_982_334_601), Err(MedChainError::ArithmeticOverflow));
    assert_eq!(
        checked_expiry(i64::MIN, 106_751_991_167_301),
        Err(MedChainError::ArithmeticOverflow)
    );
    // The product does not fit 64 unsigned bits either.
    assert_eq!(checked_expiry(0, 213_503_982_334_602), Err(MedChainError::ArithmeticOverflow));
    assert_eq!(checked_expiry(0, u64::MAX), Err(MedChainError::ArithmeticOverflow));
    assert_eq!(checked_expiry(i64::MIN, u64::MAX), Err(MedChainError::ArithmeticOverflow));
}

#[test]
fn every_error_has_its_message() {
    assert_eq!(MedChainError::NameEmpty.message(), "Patient name cannot be empty");
    assert_eq!(MedChainError::IpfsHashEmpty.message(), "IPFS hash cannot be empty");
    assert_eq!(MedChainError::NameTooLong.message(), "Patient name too long");
    assert_eq!(MedChainError::RecordTypeTooLong.message(), "Record type too long");
    assert_eq!(MedChainError::DescriptionTooLong.message(), "Description too long");
    assert_eq!(MedChainError::IpfsHashTooLong.message(), "IPFS hash too long");
    assert_eq!(MedChainError::EncryptedKeyTooLong.message(), "Encrypted key too long");
    assert_eq!(MedChainError::Unauthorized.message(), "Unauthorized access");
    assert_eq!(MedChainError::AccessExpired.message(), "Access grant expired");
    assert_eq!(MedChainError::AccessRevoked.message(), "Access grant revoked");
    assert_eq!(MedChainError::AlreadyVerified.message(), "Doctor already verified");
    assert_eq!(MedChainError::SpecializationTooLong.message(), "Specialization too long");
    assert_eq!(MedChainError::LicenseIdTooLong.message(), "License ID too long");
    assert_eq!(MedChainError::InvalidRecordId.message(), "Invalid record ID");
    assert_eq!(MedChainError::ArithmeticOverflow.message(), "Arithmetic overflow occurred");
}
