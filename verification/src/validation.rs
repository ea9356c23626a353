//! Boundary checks on text fields and overflow-safe expiry arithmetic.
//!
//! Both are pure: they read their arguments and nothing else. Every
//! operation calls them before it changes anything.

use vstd::prelude::*;
use vstd::utf8::encode_utf8;
use crate::constants::{
    ENCRYPTED_KEY_LENGTH, IPFS_HASH_LENGTH, MAX_DESCRIPTION_LENGTH, MAX_LICENSE_ID_LENGTH,
    MAX_NAME_LENGTH, MAX_RECORD_TYPE_LENGTH, MAX_SPECIALIZATION_LENGTH, NEVER_EXPIRES,
    SECONDS_PER_DAY,
};
use crate::error::MedChainError;

verus! {

/// The number of bytes that a text takes when stored, which is the length of
/// its UTF-8 encoding.
pub open spec fn byte_len(text: Seq<char>) -> nat {
    encode_utf8(text).len()
}

/// The kinds of text field that have a fixed capacity.
#[derive(Clone, Copy, Debug, PartialEq, Eq, Structural)]
pub enum Field {
    Name,
    RecordType,
    Description,
    IpfsHash,
    EncryptedKey,
    Specialization,
    LicenseId,
}

impl Field {
    /// The capacity of a field of this kind, in bytes.
    pub open spec fn spec_max_len(self) -> usize {
        match self {
            Field::Name => MAX_NAME_LENGTH,
            Field::RecordType => MAX_RECORD_TYPE_LENGTH,
            Field::Description => MAX_DESCRIPTION_LENGTH,
            Field::IpfsHash => IPFS_HASH_LENGTH,
            Field::EncryptedKey => ENCRYPTED_KEY_LENGTH,
            Field::Specialization => MAX_SPECIALIZATION_LENGTH,
            Field::LicenseId => MAX_LICENSE_ID_LENGTH,
        }
    }

    /// The capacity of a field of this kind, in bytes.
    #[verifier::when_used_as_spec(spec_max_len)]
    pub fn max_len(self) -> (max: usize)
        ensures
            max == self.spec_max_len(),
    {
        match self {
            Field::Name => MAX_NAME_LENGTH,
            Field::RecordType => MAX_RECORD_TYPE_LENGTH,
            Field::Description => MAX_DESCRIPTION_LENGTH,
            Field::IpfsHash => IPFS_HASH_LENGTH,
            Field::EncryptedKey => ENCRYPTED_KEY_LENGTH,
            Field::Specialization => MAX_SPECIALIZATION_LENGTH,
            Field::LicenseId => MAX_LICENSE_ID_LENGTH,
        }
    }

    /// The error that reports a field of this kind as too long.
    pub open spec fn spec_too_long(self) -> MedChainError {
        match self {
            Field::Name => MedChainError::NameTooLong,
            Field::RecordType => MedChainError::RecordTypeTooLong,
            Field::Description => MedChainError::DescriptionTooLong,
            Field::IpfsHash => MedChainError::IpfsHashTooLong,
            Field::EncryptedKey => MedChainError::EncryptedKeyTooLong,
            Field::Specialization => MedChainError::SpecializationTooLong,
            Field::LicenseId => MedChainError::LicenseIdTooLong,
        }
    }

    /// The error that reports a field of this kind as too long.
    #[verifier::when_used_as_spec(spec_too_long)]
    pub fn too_long(self) -> (error: MedChainError)
        ensures
            error == self.spec_too_long(),
    {
        match self {
            Field::Name => MedChainError::NameTooLong,
            Field::RecordType => MedChainError::RecordTypeTooLong,
            Field::Description => MedChainError::DescriptionTooLong,
            Field::IpfsHash => MedChainError::IpfsHashTooLong,
            Field::EncryptedKey => MedChainError::EncryptedKeyTooLong,
            Field::Specialization => MedChainError::SpecializationTooLong,
            Field::LicenseId => MedChainError::LicenseIdTooLong,
        }
    }

    /// Whether a text fits a field of this kind.
    pub open spec fn admits(self, text: Seq<char>) -> bool {
        byte_len(text) <= self.max_len()
    }
}

/// What `check_len` answers: nothing to object to when the text fits, the
/// field's own error when it does not.
pub open spec fn len_verdict(field: Field, text: Seq<char>) -> Result<(), MedChainError> {
    if field.admits(text) {
        Ok(())
    } else {
        Err(field.too_long())
    }
}

/// Checks a text against the capacity of the field it is meant for.
pub fn check_len(field: Field, text: &str) -> (verdict: Result<(), MedChainError>)
    ensures
        verdict == len_verdict(field, text@),
{
    if text.as_bytes().len() <= field.max_len() {
        Ok(())
    } else {
        Err(field.too_long())
    }
}

/// The expiry of a grant issued at `now` for `duration_days` days.
///
/// Zero days stand for a grant that never expires. Otherwise the duration in
/// seconds and the expiry must each fit a signed 64-bit timestamp; `None`
/// where one of them does not.
pub open spec fn expiry(now: int, duration_days: nat) -> Option<int> {
    if duration_days == 0 {
        Some(NEVER_EXPIRES as int)
    } else if duration_days * SECONDS_PER_DAY > i64::MAX {
        None
    } else if now + duration_days * SECONDS_PER_DAY > i64::MAX {
        None
    } else {
        Some(now + duration_days * SECONDS_PER_DAY)
    }
}

/// What `checked_expiry` answers for each outcome of `expiry`.
pub open spec fn expiry_verdict(now: int, duration_days: nat) -> Result<int, MedChainError> {
    match expiry(now, duration_days) {
        Some(expires_at) => Ok(expires_at),
        None => Err(MedChainError::ArithmeticOverflow),
    }
}

/// Computes the expiry of a grant issued at `now` for `duration_days` days,
/// multiplying and adding with overflow checks. Nothing wraps or saturates.
pub fn checked_expiry(now: i64, duration_days: u64) -> (verdict: Result<i64, MedChainError>)
    ensures
        match verdict {
            Ok(expires_at) => expiry_verdict(now as int, duration_days as nat) == Ok::<
                int,
                MedChainError,
            >(expires_at as int),
            Err(error) => expiry_verdict(now as int, duration_days as nat) == Err::<
                int,
                MedChainError,
            >(error),
        },
{
    if duration_days == 0 {
        return Ok(NEVER_EXPIRES);
    }
    let seconds: u64 = match duration_days.checked_mul(SECONDS_PER_DAY) {
        Some(seconds) => seconds,
        None => {
            return Err(MedChainError::ArithmeticOverflow);
        },
    };
    match now.checked_add_unsigned(seconds) {
        Some(expires_at) => {
            if seconds > 0x7fff_ffff_ffff_ffff {
                Err(MedChainError::ArithmeticOverflow)
            } else {
                Ok(expires_at)
            }
        },
        None => Err(MedChainError::ArithmeticOverflow),
    }
}

} // verus!
