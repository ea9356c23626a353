//! Creating the profile of a patient.

use vstd::prelude::*;
use crate::address::Address;
use crate::error::MedChainError;
use crate::events::{PatientInitialized, PatientInitializedView};
use crate::state::{PatientAccount, PatientAccountView};
use crate::validation::{check_len, Field};

verus! {

/// What creating a patient's profile reads.
#[derive(Clone, Copy, Debug, PartialEq, Eq)]
pub struct InitializePatient {
    /// The signer of the request, who will control the profile.
    pub user: Address,
    /// The address at which the profile will be stored.
    pub patient_account_key: Address,
    /// Set when `patient_account_key` was derived; stored in the profile.
    pub bump: u8,
}

/// The check that refuses the request, if it does.
pub open spec fn refusal(name: Seq<char>) -> Option<MedChainError> {
    if !Field::Name.admits(name) {
        Some(MedChainError::NameTooLong)
    } else {
        None
    }
}

/// The profile that an accepted request creates. It has no records yet.
pub open spec fn created(ctx: InitializePatient, now: int, name: Seq<char>) -> PatientAccountView {
    PatientAccountView {
        authority: ctx.user,
        name,
        record_count: 0,
        created_at: now,
        bump: ctx.bump,
    }
}

/// The event that an accepted request emits.
pub open spec fn announced(ctx: InitializePatient, now: int) -> PatientInitializedView {
    PatientInitializedView {
        patient: ctx.patient_account_key,
        authority: ctx.user,
        timestamp: now,
    }
}

/// Creates the profile of the patient who signed, at time `now`.
///
/// On success the new profile and its event are returned. A name that is
/// too long is refused, and no profile is created.
pub fn handler(ctx: &InitializePatient, now: i64, name: String) -> (outcome: Result<
    (PatientAccount, PatientInitialized),
    MedChainError,
>)
    ensures
        match outcome {
            Ok((patient, event)) => {
                &&& refusal(name@) is None
                &&& patient@ == created(*ctx, now as int, name@)
                &&& event@ == announced(*ctx, now as int)
                &&& patient@.wf()
            },
            Err(error) => refusal(name@) == Some(error),
        },
{
    check_len(Field::Name, name.as_str())?;
    let event = PatientInitialized {
        patient: ctx.patient_account_key,
        authority: ctx.user,
        timestamp: now,
    };
    let patient = PatientAccount {
        authority: ctx.user,
        name,
        record_count: 0,
        created_at: now,
        bump: ctx.bump,
    };
    Ok((patient, event))
}

} // verus!
