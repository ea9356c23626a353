//! Adding a record to a patient.
//!
//! Records of one patient are numbered 0, 1, 2, ... without gaps: a new
//! record must name the patient's current record count as its identifier,
//! and the count then goes up by one.

use vstd::prelude::*;
use crate::address::Address;
use crate::constants::INITIAL_KEY_VERSION;
use crate::error::MedChainError;
use crate::events::{MedicalRecordAdded, MedicalRecordAddedView};
use crate::state::{MedicalRecord, MedicalRecordView, PatientAccount, PatientAccountView};
use crate::validation::{check_len, Field};

verus! {

/// What adding a record reads and changes.
#[derive(Clone, Debug, PartialEq, Eq)]
pub struct AddMedicalRecord {
    /// The signer of the request.
    pub authority: Address,
    /// The address of the patient's profile.
    pub patient_key: Address,
    /// The patient's profile; its record count goes up on success.
    pub patient_account: PatientAccount,
    /// The address at which the new record will be stored.
    pub medical_record_key: Address,
    /// Set when `medical_record_key` was derived; stored in the record.
    pub bump: u8,
}

pub struct AddMedicalRecordView {
    pub authority: Address,
    pub patient_key: Address,
    pub patient_account: PatientAccountView,
    pub medical_record_key: Address,
    pub bump: u8,
}

impl View for AddMedicalRecord {
    type V = AddMedicalRecordView;

    open spec fn view(&self) -> AddMedicalRecordView {
        AddMedicalRecordView {
            authority: self.authority,
            patient_key: self.patient_key,
            patient_account: self.patient_account@,
            medical_record_key: self.medical_record_key,
            bump: self.bump,
        }
    }
}

/// The first check that refuses the request, if any does. The checks run in
/// this order: the caller, the four texts, the identifier, the counter.
pub open spec fn refusal(
    ctx: AddMedicalRecordView,
    record_id: nat,
    record_type: Seq<char>,
    description: Seq<char>,
    ipfs_hash: Seq<char>,
    encrypted_key: Seq<char>,
) -> Option<MedChainError> {
    if ctx.authority != ctx.patient_account.authority {
        Some(MedChainError::Unauthorized)
    } else if !Field::RecordType.admits(record_type) {
        Some(MedChainError::RecordTypeTooLong)
    } else if !Field::Description.admits(description) {
        Some(MedChainError::DescriptionTooLong)
    } else if !Field::IpfsHash.admits(ipfs_hash) {
        Some(MedChainError::IpfsHashTooLong)
    } else if !Field::EncryptedKey.admits(encrypted_key) {
        Some(MedChainError::EncryptedKeyTooLong)
    } else if record_id != ctx.patient_account.record_count {
        Some(MedChainError::InvalidRecordId)
    } else if ctx.patient_account.record_count >= u64::MAX {
        Some(MedChainError::ArithmeticOverflow)
    } else {
        None
    }
}

/// The patient's profile after one more record.
pub open spec fn counted(patient: PatientAccountView) -> PatientAccountView {
    PatientAccountView { record_count: patient.record_count + 1, ..patient }
}

/// The record that an accepted request creates.
pub open spec fn created(
    ctx: AddMedicalRecordView,
    now: int,
    record_id: nat,
    record_type: Seq<char>,
    description: Seq<char>,
    ipfs_hash: Seq<char>,
    encrypted_key: Seq<char>,
) -> MedicalRecordView {
    MedicalRecordView {
        patient: ctx.patient_key,
        record_id,
        ipfs_hash,
        record_type,
        description,
        created_at: now,
        encrypted_key,
        key_version: INITIAL_KEY_VERSION as nat,
        bump: ctx.bump,
    }
}

/// The event that an accepted request emits.
pub open spec fn announced(
    ctx: AddMedicalRecordView,
    now: int,
    record_id: nat,
    record_type: Seq<char>,
) -> MedicalRecordAddedView {
    MedicalRecordAddedView {
        patient: ctx.patient_key,
        record: ctx.medical_record_key,
        record_id,
        record_type,
        timestamp: now,
    }
}

/// Adds a record to the patient in `ctx`, at time `now`.
///
/// On success the patient's record count has gone up by one and the new
/// record and its event are returned. A refused request leaves `ctx` as it
/// was; the error is the first check that failed.
pub fn handler(
    ctx: &mut AddMedicalRecord,
    now: i64,
    record_id: u64,
    record_type: String,
    description: String,
    ipfs_hash: String,
    encrypted_key: String,
) -> (outcome: Result<(MedicalRecord, MedicalRecordAdded), MedChainError>)
    ensures
        match outcome {
            Ok((record, event)) => {
                &&& refusal(
                    old(ctx)@,
                    record_id as nat,
                    record_type@,
                    description@,
                    ipfs_hash@,
                    encrypted_key@,
                ) is None
                &&& final(ctx)@ == (AddMedicalRecordView {
                    patient_account: counted(old(ctx)@.patient_account),
                    ..old(ctx)@
                })
                &&& record@ == created(
                    old(ctx)@,
                    now as int,
                    record_id as nat,
                    record_type@,
                    description@,
                    ipfs_hash@,
                    encrypted_key@,
                )
                &&& event@ == announced(old(ctx)@, now as int, record_id as nat, record_type@)
                &&& record@.wf()
            },
            Err(error) => {
                &&& refusal(
                    old(ctx)@,
                    record_id as nat,
                    record_type@,
                    description@,
                    ipfs_hash@,
                    encrypted_key@,
                ) == Some(error)
                &&& *final(ctx) == *old(ctx)
            },
        },
        record_id != old(ctx).patient_account.record_count ==> outcome is Err,
        old(ctx)@.patient_account.wf() ==> final(ctx)@.patient_account.wf(),
{
    if ctx.authority != ctx.patient_account.authority {
        return Err(MedChainError::Unauthorized);
    }
    check_len(Field::RecordType, record_type.as_str())?;
    check_len(Field::Description, description.as_str())?;
    check_len(Field::IpfsHash, ipfs_hash.as_str())?;
    check_len(Field::EncryptedKey, encrypted_key.as_str())?;
    if record_id != ctx.patient_account.record_count {
        return Err(MedChainError::InvalidRecordId);
    }
    let next_count: u64 = match ctx.patient_account.record_count.checked_add(1) {
        Some(next_count) => next_count,
        None => {
            return Err(MedChainError::ArithmeticOverflow);
        },
    };
    ctx.patient_account.record_count = next_count;
    let event = MedicalRecordAdded {
        patient: ctx.patient_key,
        record: ctx.medical_record_key,
        record_id,
        record_type: record_type.clone(),
        timestamp: now,
    };
    let record = MedicalRecord {
        patient: ctx.patient_key,
        record_id,
        ipfs_hash,
        record_type,
        description,
        created_at: now,
        encrypted_key,
        key_version: INITIAL_KEY_VERSION,
        bump: ctx.bump,
    };
    Ok((record, event))
}

} // verus!
