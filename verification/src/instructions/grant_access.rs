//! Giving a doctor access to one record.
//!
//! The grant holds the record's content key encrypted for the doctor, the
//! record's key version at that moment, and an expiry.

use vstd::prelude::*;
use crate::address::Address;
use crate::error::MedChainError;
use crate::events::{AccessGranted, AccessGrantedView};
use crate::state::{
    AccessGrant, AccessGrantView, MedicalRecord, MedicalRecordView, PatientAccount,
    PatientAccountView,
};
use crate::validation::{check_len, checked_expiry, expiry, Field};

verus! {

/// What granting access reads. Nothing in it changes: the grant is new.
#[derive(Clone, Debug, PartialEq, Eq)]
pub struct GrantAccess {
    /// The signer of the request.
    pub authority: Address,
    /// The address of the patient's profile.
    pub patient_key: Address,
    pub patient_account: PatientAccount,
    /// The address of the record.
    pub medical_record_key: Address,
    pub medical_record: MedicalRecord,
    /// Set when the grant's address was derived; stored in the grant.
    pub bump: u8,
}

pub struct GrantAccessView {
    pub authority: Address,
    pub patient_key: Address,
    pub patient_account: PatientAccountView,
    pub medical_record_key: Address,
    pub medical_record: MedicalRecordView,
    pub bump: u8,
}

impl View for GrantAccess {
    type V = GrantAccessView;

    open spec fn view(&self) -> GrantAccessView {
        GrantAccessView {
            authority: self.authority,
            patient_key: self.patient_key,
            patient_account: self.patient_account@,
            medical_record_key: self.medical_record_key,
            medical_record: self.medical_record@,
            bump: self.bump,
        }
    }
}

/// The first check that refuses the request, if any does. The checks run in
/// this order: the caller, the record's owner, the key, the expiry.
pub open spec fn refusal(
    ctx: GrantAccessView,
    now: int,
    duration_days: nat,
    encrypted_key_for_doctor: Seq<char>,
) -> Option<MedChainError> {
    if ctx.authority != ctx.patient_account.authority {
        Some(MedChainError::Unauthorized)
    } else if ctx.medical_record.patient != ctx.patient_key {
        Some(MedChainError::Unauthorized)
    } else if !Field::EncryptedKey.admits(encrypted_key_for_doctor) {
        Some(MedChainError::EncryptedKeyTooLong)
    } else if expiry(now, duration_days) is None {
        Some(MedChainError::ArithmeticOverflow)
    } else {
        None
    }
}

/// The grant that an accepted request creates.
pub open spec fn created(
    ctx: GrantAccessView,
    now: int,
    doctor: Address,
    duration_days: nat,
    encrypted_key_for_doctor: Seq<char>,
) -> AccessGrantView {
    AccessGrantView {
        record: ctx.medical_record_key,
        patient: ctx.patient_key,
        doctor,
        encrypted_key: encrypted_key_for_doctor,
        key_version: ctx.medical_record.key_version,
        granted_at: now,
        expires_at: expiry(now, duration_days).unwrap(),
        is_active: true,
        bump: ctx.bump,
    }
}

/// The event that an accepted request emits.
pub open spec fn announced(
    ctx: GrantAccessView,
    now: int,
    doctor: Address,
    duration_days: nat,
) -> AccessGrantedView {
    AccessGrantedView {
        record: ctx.medical_record_key,
        patient: ctx.patient_key,
        doctor,
        granted_at: now,
        expires_at: expiry(now, duration_days).unwrap(),
        key_version: ctx.medical_record.key_version,
    }
}

/// Gives `doctor` access to the record in `ctx` for `duration_days` days
/// from `now`; zero days stand for access that never expires.
///
/// On success the new grant and its event are returned. The error of a
/// refused request is the first check that failed; no grant is created.
pub fn handler(
    ctx: &GrantAccess,
    now: i64,
    doctor: Address,
    duration_days: u64,
    encrypted_key_for_doctor: String,
) -> (outcome: Result<(AccessGrant, AccessGranted), MedChainError>)
    ensures
        match outcome {
            Ok((grant, event)) => {
                &&& refusal(
                    ctx@,
                    now as int,
                    duration_days as nat,
                    encrypted_key_for_doctor@,
                ) is None
                &&& grant@ == created(
                    ctx@,
                    now as int,
                    doctor,
                    duration_days as nat,
                    encrypted_key_for_doctor@,
                )
                &&& event@ == announced(ctx@, now as int, doctor, duration_days as nat)
                &&& grant@.wf()
            },
            Err(error) => refusal(
                ctx@,
                now as int,
                duration_days as nat,
                encrypted_key_for_doctor@,
            ) == Some(error),
        },
{
    if ctx.authority != ctx.patient_account.authority {
        return Err(MedChainError::Unauthorized);
    }
    if ctx.medical_record.patient != ctx.patient_key {
        return Err(MedChainError::Unauthorized);
    }
    check_len(Field::EncryptedKey, encrypted_key_for_doctor.as_str())?;
    let expires_at: i64 = checked_expiry(now, duration_days)?;
    let event = AccessGranted {
        record: ctx.medical_record_key,
        patient: ctx.patient_key,
        doctor,
        granted_at: now,
        expires_at,
        key_version: ctx.medical_record.key_version,
    };
    let grant = AccessGrant {
        record: ctx.medical_record_key,
        patient: ctx.patient_key,
        doctor,
        encrypted_key: encrypted_key_for_doctor,
        key_version: ctx.medical_record.key_version,
        granted_at: now,
        expires_at,
        is_active: true,
        bump: ctx.bump,
    };
    Ok((grant, event))
}

} // verus!
