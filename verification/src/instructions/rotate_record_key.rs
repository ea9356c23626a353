//! Replacing the content key of a record.
//!
//! A rotation replaces the locator and the encrypted key and raises the
//! record's key version by one. It touches no grant: every grant of the
//! record is stale from then on, until its doctor's key is renewed.

use vstd::prelude::*;
use crate::address::Address;
use crate::error::MedChainError;
use crate::events::{RecordKeyRotated, RecordKeyRotatedView};
use crate::state::{MedicalRecord, MedicalRecordView, PatientAccount, PatientAccountView};
use crate::validation::{check_len, Field};

verus! {

/// What rotating a record's key reads and changes.
#[derive(Clone, Debug, PartialEq, Eq)]
pub struct RotateRecordKey {
    /// The signer of the request.
    pub authority: Address,
    /// The address of the patient's profile.
    pub patient_key: Address,
    pub patient_account: PatientAccount,
    /// The address of the record.
    pub medical_record_key: Address,
    /// The record; changed on success.
    pub medical_record: MedicalRecord,
}

pub struct RotateRecordKeyView {
    pub authority: Address,
    pub patient_key: Address,
    pub patient_account: PatientAccountView,
    pub medical_record_key: Address,
    pub medical_record: MedicalRecordView,
}

impl View for RotateRecordKey {
    type V = RotateRecordKeyView;

    open spec fn view(&self) -> RotateRecordKeyView {
        RotateRecordKeyView {
            authority: self.authority,
            patient_key: self.patient_key,
            patient_account: self.patient_account@,
            medical_record_key: self.medical_record_key,
            medical_record: self.medical_record@,
        }
    }
}

/// The first check that refuses the request, if any does. The checks run in
/// this order: the caller, the record's owner, the locator, the key, the
/// version counter.
pub open spec fn refusal(
    ctx: RotateRecordKeyView,
    new_ipfs_hash: Seq<char>,
    new_encrypted_key: Seq<char>,
) -> Option<MedChainError> {
    if ctx.authority != ctx.patient_account.authority {
        Some(MedChainError::Unauthorized)
    } else if ctx.medical_record.patient != ctx.patient_key {
        Some(MedChainError::Unauthorized)
    } else if !Field::IpfsHash.admits(new_ipfs_hash) {
        Some(MedChainError::IpfsHashTooLong)
    } else if !Field::EncryptedKey.admits(new_encrypted_key) {
        Some(MedChainError::EncryptedKeyTooLong)
    } else if ctx.medical_record.key_version >= u64::MAX {
        Some(MedChainError::ArithmeticOverflow)
    } else {
        None
    }
}

/// The record after a rotation: new locator, new key, next version; all
/// else as before.
pub open spec fn rotated(
    record: MedicalRecordView,
    new_ipfs_hash: Seq<char>,
    new_encrypted_key: Seq<char>,
) -> MedicalRecordView {
    MedicalRecordView {
        ipfs_hash: new_ipfs_hash,
        encrypted_key: new_encrypted_key,
        key_version: record.key_version + 1,
        ..record
    }
}

/// The event that an accepted request emits.
pub open spec fn announced(ctx: RotateRecordKeyView, now: int) -> RecordKeyRotatedView {
    RecordKeyRotatedView {
        record: ctx.medical_record_key,
        patient: ctx.patient_key,
        new_key_version: ctx.medical_record.key_version + 1,
        rotated_at: now,
    }
}

/// Replaces the locator and the encrypted key of the record in `ctx`, at
/// time `now`, and raises its key version by one.
///
/// On success the event is returned. A refused request leaves `ctx` as it
/// was; the error is the first check that failed.
pub fn handler(
    ctx: &mut RotateRecordKey,
    now: i64,
    new_ipfs_hash: String,
    new_encrypted_key: String,
) -> (outcome: Result<RecordKeyRotated, MedChainError>)
    ensures
        match outcome {
            Ok(event) => {
                &&& refusal(old(ctx)@, new_ipfs_hash@, new_encrypted_key@) is None
                &&& final(ctx)@ == (RotateRecordKeyView {
                    medical_record: rotated(
                        old(ctx)@.medical_record,
                        new_ipfs_hash@,
                        new_encrypted_key@,
                    ),
                    ..old(ctx)@
                })
                &&& event@ == announced(old(ctx)@, now as int)
            },
            Err(error) => {
                &&& refusal(old(ctx)@, new_ipfs_hash@, new_encrypted_key@) == Some(error)
                &&& *final(ctx) == *old(ctx)
            },
        },
        old(ctx)@.medical_record.wf() ==> final(ctx)@.medical_record.wf(),
{
    if ctx.authority != ctx.patient_account.authority {
        return Err(MedChainError::Unauthorized);
    }
    if ctx.medical_record.patient != ctx.patient_key {
        return Err(MedChainError::Unauthorized);
    }
    check_len(Field::IpfsHash, new_ipfs_hash.as_str())?;
    check_len(Field::EncryptedKey, new_encrypted_key.as_str())?;
    let new_key_version: u64 = match ctx.medical_record.key_version.checked_add(1) {
        Some(new_key_version) => new_key_version,
        None => {
            return Err(MedChainError::ArithmeticOverflow);
        },
    };
    ctx.medical_record.ipfs_hash = new_ipfs_hash;
    ctx.medical_record.encrypted_key = new_encrypted_key;
    ctx.medical_record.key_version = new_key_version;
    Ok(
        RecordKeyRotated {
            record: ctx.medical_record_key,
            patient: ctx.patient_key,
            new_key_version,
            rotated_at: now,
        },
    )
}

} // verus!
