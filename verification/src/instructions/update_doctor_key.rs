//! Renewing a doctor's copy of a record's key.
//!
//! After a rotation the patient encrypts the new content key for the doctor
//! and stores it in the grant, which then carries the record's current key
//! version again. A revoked grant is not renewed.

use vstd::prelude::*;
use crate::address::Address;
use crate::error::MedChainError;
use crate::events::{DoctorKeyUpdated, DoctorKeyUpdatedView};
use crate::state::{
    AccessGrant, AccessGrantView, MedicalRecord, MedicalRecordView, PatientAccount,
    PatientAccountView,
};
use crate::validation::{check_len, Field};

verus! {

/// What renewing a doctor's key reads and changes.
#[derive(Clone, Debug, PartialEq, Eq)]
pub struct UpdateDoctorKey {
    /// The signer of the request.
    pub authority: Address,
    /// The address of the patient's profile.
    pub patient_key: Address,
    pub patient_account: PatientAccount,
    /// The address of the record.
    pub medical_record_key: Address,
    pub medical_record: MedicalRecord,
    /// The grant; changed on success.
    pub access_grant: AccessGrant,
}

pub struct UpdateDoctorKeyView {
    pub authority: Address,
    pub patient_key: Address,
    pub patient_account: PatientAccountView,
    pub medical_record_key: Address,
    pub medical_record: MedicalRecordView,
    pub access_grant: AccessGrantView,
}

impl View for UpdateDoctorKey {
    type V = UpdateDoctorKeyView;

    open spec fn view(&self) -> UpdateDoctorKeyView {
        UpdateDoctorKeyView {
            authority: self.authority,
            patient_key: self.patient_key,
            patient_account: self.patient_account@,
            medical_record_key: self.medical_record_key,
            medical_record: self.medical_record@,
            access_grant: self.access_grant@,
        }
    }
}

/// The caller controls the patient's profile, and the record and the grant
/// are that patient's, the grant being one of that record.
pub open spec fn authorized(ctx: UpdateDoctorKeyView) -> bool {
    &&& ctx.authority == ctx.patient_account.authority
    &&& ctx.medical_record.patient == ctx.patient_key
    &&& ctx.access_grant.patient == ctx.patient_key
    &&& ctx.access_grant.record == ctx.medical_record_key
}

/// The first check that refuses the request, if any does. The checks run in
/// this order: who and what belongs together, the key, the grant's state.
pub open spec fn refusal(ctx: UpdateDoctorKeyView, new_encrypted_key_for_doctor: Seq<char>) -> Option<
    MedChainError,
> {
    if !authorized(ctx) {
        Some(MedChainError::Unauthorized)
    } else if !Field::EncryptedKey.admits(new_encrypted_key_for_doctor) {
        Some(MedChainError::EncryptedKeyTooLong)
    } else if !ctx.access_grant.is_active {
        Some(MedChainError::AccessRevoked)
    } else {
        None
    }
}

/// The grant after a renewal against `record`: the new key, at the record's
/// current key version; all else as before.
pub open spec fn renewed(
    grant: AccessGrantView,
    record: MedicalRecordView,
    new_encrypted_key_for_doctor: Seq<char>,
) -> AccessGrantView {
    AccessGrantView {
        encrypted_key: new_encrypted_key_for_doctor,
        key_version: record.key_version,
        ..grant
    }
}

/// The event that an accepted request emits.
pub open spec fn announced(ctx: UpdateDoctorKeyView, now: int) -> DoctorKeyUpdatedView {
    DoctorKeyUpdatedView {
        record: ctx.medical_record_key,
        doctor: ctx.access_grant.doctor,
        patient: ctx.patient_key,
        key_version: ctx.medical_record.key_version,
        updated_at: now,
    }
}

/// Stores a new key for the doctor in the grant in `ctx`, at time `now`,
/// and brings the grant to the record's current key version.
///
/// On success the event is returned. A refused request leaves `ctx` as it
/// was; the error is the first check that failed.
pub fn handler(ctx: &mut UpdateDoctorKey, now: i64, new_encrypted_key_for_doctor: String) -> (outcome:
    Result<DoctorKeyUpdated, MedChainError>)
    ensures
        match outcome {
            Ok(event) => {
                &&& refusal(old(ctx)@, new_encrypted_key_for_doctor@) is None
                &&& final(ctx)@ == (UpdateDoctorKeyView {
                    access_grant: renewed(
                        old(ctx)@.access_grant,
                        old(ctx)@.medical_record,
                        new_encrypted_key_for_doctor@,
                    ),
                    ..old(ctx)@
                })
                &&& event@ == announced(old(ctx)@, now as int)
            },
            Err(error) => {
                &&& refusal(old(ctx)@, new_encrypted_key_for_doctor@) == Some(error)
                &&& *final(ctx) == *old(ctx)
            },
        },
        old(ctx)@.access_grant.wf() ==> final(ctx)@.access_grant.wf(),
{
    if ctx.authority != ctx.patient_account.authority {
        return Err(MedChainError::Unauthorized);
    }
    if ctx.medical_record.patient != ctx.patient_key {
        return Err(MedChainError::Unauthorized);
    }
    if ctx.access_grant.patient != ctx.patient_key {
        return Err(MedChainError::Unauthorized);
    }
    if ctx.access_grant.record != ctx.medical_record_key {
        return Err(MedChainError::Unauthorized);
    }
    check_len(Field::EncryptedKey, new_encrypted_key_for_doctor.as_str())?;
    if !ctx.access_grant.is_active {
        return Err(MedChainError::AccessRevoked);
    }
    ctx.access_grant.encrypted_key = new_encrypted_key_for_doctor;
    ctx.access_grant.key_version = ctx.medical_record.key_version;
    Ok(
        DoctorKeyUpdated {
            record: ctx.medical_record_key,
            doctor: ctx.access_grant.doctor,
            patient: ctx.patient_key,
            key_version: ctx.medical_record.key_version,
            updated_at: now,
        },
    )
}

} // verus!
