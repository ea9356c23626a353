//! Taking a doctor's access away.
//!
//! Revocation deactivates the grant. Nothing activates it again: a revoked
//! grant is not renewed, so the doctor stays without a valid key.

use vstd::prelude::*;
use crate::address::Address;
use crate::error::MedChainError;
use crate::state::{AccessGrant, AccessGrantView, PatientAccount, PatientAccountView};

verus! {

/// What revoking a grant reads and changes.
#[derive(Clone, Debug, PartialEq, Eq)]
pub struct RevokeAccess {
    /// The signer of the request.
    pub authority: Address,
    /// The address of the patient's profile.
    pub patient_key: Address,
    pub patient_account: PatientAccount,
    /// The grant; changed on success.
    pub access_grant: AccessGrant,
}

pub struct RevokeAccessView {
    pub authority: Address,
    pub patient_key: Address,
    pub patient_account: PatientAccountView,
    pub access_grant: AccessGrantView,
}

impl View for RevokeAccess {
    type V = RevokeAccessView;

    open spec fn view(&self) -> RevokeAccessView {
        RevokeAccessView {
            authority: self.authority,
            patient_key: self.patient_key,
            patient_account: self.patient_account@,
            access_grant: self.access_grant@,
        }
    }
}

/// The first check that refuses the request, if any does: the caller must
/// control the patient's profile, and the grant must be that patient's.
pub open spec fn refusal(ctx: RevokeAccessView) -> Option<MedChainError> {
    if ctx.authority != ctx.patient_account.authority {
        Some(MedChainError::Unauthorized)
    } else if ctx.access_grant.patient != ctx.patient_key {
        Some(MedChainError::Unauthorized)
    } else {
        None
    }
}

/// The grant once revoked; all else as before.
pub open spec fn revoked(grant: AccessGrantView) -> AccessGrantView {
    AccessGrantView { is_active: false, ..grant }
}

/// Deactivates the grant in `ctx`. Revoking a grant that is revoked already
/// succeeds and changes nothing.
///
/// A refused request leaves `ctx` as it was.
pub fn handler(ctx: &mut RevokeAccess) -> (outcome: Result<(), MedChainError>)
    ensures
        match outcome {
            Ok(_) => {
                &&& refusal(old(ctx)@) is None
                &&& final(ctx)@ == (RevokeAccessView {
                    access_grant: revoked(old(ctx)@.access_grant),
                    ..old(ctx)@
                })
            },
            Err(error) => {
                &&& refusal(old(ctx)@) == Some(error)
                &&& *final(ctx) == *old(ctx)
            },
        },
        old(ctx)@.access_grant.wf() ==> final(ctx)@.access_grant.wf(),
{
    if ctx.authority != ctx.patient_account.authority {
        return Err(MedChainError::Unauthorized);
    }
    if ctx.access_grant.patient != ctx.patient_key {
        return Err(MedChainError::Unauthorized);
    }
    ctx.access_grant.is_active = false;
    Ok(())
}

} // verus!
