//! Marking a doctor as verified.
//!
//! Verification happens once. Who may act as administrator is a policy of
//! the caller's; this operation does not judge it.

use vstd::prelude::*;
use crate::address::Address;
use crate::error::MedChainError;
use crate::state::{DoctorAccount, DoctorAccountView};

verus! {

/// What verifying a doctor reads and changes.
#[derive(Clone, Debug, PartialEq, Eq)]
pub struct VerifyDoctor {
    /// The signer of the request.
    pub admin: Address,
    /// The doctor's profile; changed on success.
    pub doctor_account: DoctorAccount,
}

pub struct VerifyDoctorView {
    pub admin: Address,
    pub doctor_account: DoctorAccountView,
}

impl View for VerifyDoctor {
    type V = VerifyDoctorView;

    open spec fn view(&self) -> VerifyDoctorView {
        VerifyDoctorView { admin: self.admin, doctor_account: self.doctor_account@ }
    }
}

/// The check that refuses the request, if it does.
pub open spec fn refusal(ctx: VerifyDoctorView) -> Option<MedChainError> {
    if ctx.doctor_account.verified {
        Some(MedChainError::AlreadyVerified)
    } else {
        None
    }
}

/// The profile once verified; all else as before.
pub open spec fn verified(doctor: DoctorAccountView) -> DoctorAccountView {
    DoctorAccountView { verified: true, ..doctor }
}

/// Marks the doctor in `ctx` as verified.
///
/// A doctor who is verified already is refused, and `ctx` stays as it was.
pub fn handler(ctx: &mut VerifyDoctor) -> (outcome: Result<(), MedChainError>)
    ensures
        match outcome {
            Ok(_) => {
                &&& refusal(old(ctx)@) is None
                &&& final(ctx)@ == (VerifyDoctorView {
                    doctor_account: verified(old(ctx)@.doctor_account),
                    ..old(ctx)@
                })
            },
            Err(error) => {
                &&& refusal(old(ctx)@) == Some(error)
                &&& *final(ctx) == *old(ctx)
            },
        },
        old(ctx)@.doctor_account.wf() ==> final(ctx)@.doctor_account.wf(),
{
    if ctx.doctor_account.verified {
        return Err(MedChainError::AlreadyVerified);
    }
    ctx.doctor_account.verified = true;
    Ok(())
}

} // verus!
