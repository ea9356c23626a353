//! The one error type of the library.

use vstd::prelude::*;

verus! {

/// Why an operation was refused. A refused operation changes nothing.
#[derive(Clone, Copy, Debug, PartialEq, Eq, Structural)]
pub enum MedChainError {
    /// Kept for callers that reject an empty name before they submit it; no
    /// operation of this library returns it.
    NameEmpty,
    /// Kept for callers that reject an empty content locator before they
    /// submit it; no operation of this library returns it.
    IpfsHashEmpty,
    /// A name is longer than `MAX_NAME_LENGTH` bytes.
    NameTooLong,
    /// A record type is longer than `MAX_RECORD_TYPE_LENGTH` bytes.
    RecordTypeTooLong,
    /// A description is longer than `MAX_DESCRIPTION_LENGTH` bytes.
    DescriptionTooLong,
    /// A content locator is longer than `IPFS_HASH_LENGTH` bytes.
    IpfsHashTooLong,
    /// An encrypted key is longer than `ENCRYPTED_KEY_LENGTH` bytes.
    EncryptedKeyTooLong,
    /// The caller is not the authority that owns the entity, or the entities
    /// handed in do not belong together.
    Unauthorized,
    /// A grant is past its expiry, or holds a key for a superseded version.
    AccessExpired,
    /// A grant was deactivated.
    AccessRevoked,
    /// A doctor was already verified.
    AlreadyVerified,
    /// A specialization is longer than `MAX_SPECIALIZATION_LENGTH` bytes.
    SpecializationTooLong,
    /// A license identifier is longer than `MAX_LICENSE_ID_LENGTH` bytes.
    LicenseIdTooLong,
    /// The identifier of a new record is not the patient's record count.
    InvalidRecordId,
    /// A counter or a timestamp would leave its range.
    ArithmeticOverflow,
}

impl MedChainError {
    /// The text shown to a person for this error.
    pub fn message(&self) -> (text: &'static str)
        ensures
            text@ == self.message_text(),
    {
        match self {
            MedChainError::NameEmpty => "Patient name cannot be empty",
            MedChainError::IpfsHashEmpty => "IPFS hash cannot be empty",
            MedChainError::NameTooLong => "Patient name too long",
            MedChainError::RecordTypeTooLong => "Record type too long",
            MedChainError::DescriptionTooLong => "Description too long",
            MedChainError::IpfsHashTooLong => "IPFS hash too long",
            MedChainError::EncryptedKeyTooLong => "Encrypted key too long",
            MedChainError::Unauthorized => "Unauthorized access",
            MedChainError::AccessExpired => "Access grant expired",
            MedChainError::AccessRevoked => "Access grant revoked",
            MedChainError::AlreadyVerified => "Doctor already verified",
            MedChainError::SpecializationTooLong => "Specialization too long",
            MedChainError::LicenseIdTooLong => "License ID too long",
            MedChainError::InvalidRecordId => "Invalid record ID",
            MedChainError::ArithmeticOverflow => "Arithmetic overflow occurred",
        }
    }

    /// The text of each error, as a sequence of characters.
    pub open spec fn message_text(&self) -> Seq<char> {
        match self {
            MedChainError::NameEmpty => "Patient name cannot be empty"@,
            MedChainError::IpfsHashEmpty => "IPFS hash cannot be empty"@,
            MedChainError::NameTooLong => "Patient name too long"@,
            MedChainError::RecordTypeTooLong => "Record type too long"@,
            MedChainError::DescriptionTooLong => "Description too long"@,
            MedChainError::IpfsHashTooLong => "IPFS hash too long"@,
            MedChainError::EncryptedKeyTooLong => "Encrypted key too long"@,
            MedChainError::Unauthorized => "Unauthorized access"@,
            MedChainError::AccessExpired => "Access grant expired"@,
            MedChainError::AccessRevoked => "Access grant revoked"@,
            MedChainError::AlreadyVerified => "Doctor already verified"@,
            MedChainError::SpecializationTooLong => "Specialization too long"@,
            MedChainError::LicenseIdTooLong => "License ID too long"@,
            MedChainError::InvalidRecordId => "Invalid record ID"@,
            MedChainError::ArithmeticOverflow => "Arithmetic overflow occurred"@,
        }
    }
}

} // verus!
