//! Creating the profile of a doctor.

use vstd::prelude::*;
use crate::address::Address;
use crate::error::MedChainError;
use crate::events::{DoctorInitialized, DoctorInitializedView};
use crate::state::{DoctorAccount, DoctorAccountView};
use crate::validation::{check_len, Field};

verus! {

/// What creating a doctor's profile reads.
#[derive(Clone, Copy, Debug, PartialEq, Eq)]
pub struct InitializeDoctor {
    /// The signer of the request, who will control the profile.
    pub authority: Address,
    /// The address at which the profile will be stored.
    pub doctor_account_key: Address,
    /// Set when `doctor_account_key` was derived; stored in the profile.
    pub bump: u8,
}

/// The first check that refuses the request, if any does. The texts are
/// checked in this order: name, specialization, license identifier.
pub open spec fn refusal(
    name: Seq<char>,
    specialization: Seq<char>,
    license_id: Seq<char>,
) -> Option<MedChainError> {
    if !Field::Name.admits(name) {
        Some(MedChainError::NameTooLong)
    } else if !Field::Specialization.admits(specialization) {
        Some(MedChainError::SpecializationTooLong)
    } else if !Field::LicenseId.admits(license_id) {
        Some(MedChainError::LicenseIdTooLong)
    } else {
        None
    }
}

/// The profile that an accepted request creates. It starts unverified.
pub open spec fn created(
    ctx: InitializeDoctor,
    now: int,
    name: Seq<char>,
    specialization: Seq<char>,
    license_id: Seq<char>,
) -> DoctorAccountView {
    DoctorAccountView {
        authority: ctx.authority,
        name,
        specialization,
        license_id,
        verified: false,
        created_at: now,
        bump: ctx.bump,
    }
}

/// The event that an accepted request emits.
pub open spec fn announced(
    ctx: InitializeDoctor,
    now: int,
    name: Seq<char>,
    specialization: Seq<char>,
) -> DoctorInitializedView {
    DoctorInitializedView {
        doctor: ctx.doctor_account_key,
        authority: ctx.authority,
        name,
        specialization,
        timestamp: now,
    }
}

/// Creates the profile of the doctor who signed, at time `now`.
///
/// On success the new profile and its event are returned. The error of a
/// refused request is the first check that failed; no profile is created.
pub fn handler(
    ctx: &InitializeDoctor,
    now: i64,
    name: String,
    specialization: String,
    license_id: String,
) -> (outcome: Result<(DoctorAccount, DoctorInitialized), MedChainError>)
    ensures
        match outcome {
            Ok((doctor, event)) => {
                &&& refusal(name@, specialization@, license_id@) is None
                &&& doctor@ == created(*ctx, now as int, name@, specialization@, license_id@)
                &&& event@ == announced(*ctx, now as int, name@, specialization@)
                &&& doctor@.wf()
            },
            Err(error) => refusal(name@, specialization@, license_id@) == Some(error),
        },
{
    check_len(Field::Name, name.as_str())?;
    check_len(Field::Specialization, specialization.as_str())?;
    check_len(Field::LicenseId, license_id.as_str())?;
    let event = DoctorInitialized {
        doctor: ctx.doctor_account_key,
        authority: ctx.authority,
        name: name.clone(),
        specialization: specialization.clone(),
        timestamp: now,
    };
    let doctor = DoctorAccount {
        authority: ctx.authority,
        name,
        specialization,
        license_id,
        verified: false,
        created_at: now,
        bump: ctx.bump,
    };
    Ok((doctor, event))
}

} // verus!
