//! What each operation reports to the outside when it succeeds.
//!
//! An operation returns its event; appending it to a log is the caller's work.

use vstd::prelude::*;
use crate::address::Address;

verus! {

/// A patient's profile was created.
#[derive(Clone, Copy, Debug, PartialEq, Eq)]
pub struct PatientInitialized {
    /// The address of the profile.
    pub patient: Address,
    /// The signer that controls it.
    pub authority: Address,
    pub timestamp: i64,
}

pub struct PatientInitializedView {
    pub patient: Address,
    pub authority: Address,
    pub timestamp: int,
}

impl View for PatientInitialized {
    type V = PatientInitializedView;

    open spec fn view(&self) -> PatientInitializedView {
        PatientInitializedView {
            patient: self.patient,
            authority: self.authority,
            timestamp: self.timestamp as int,
        }
    }
}

/// A doctor's profile was created.
#[derive(Clone, Debug, PartialEq, Eq)]
pub struct DoctorInitialized {
    /// The address of the profile.
    pub doctor: Address,
    /// The signer that controls it.
    pub authority: Address,
    pub name: String,
    pub specialization: String,
    pub timestamp: i64,
}

pub struct DoctorInitializedView {
    pub doctor: Address,
    pub authority: Address,
    pub name: Seq<char>,
    pub specialization: Seq<char>,
    pub timestamp: int,
}

impl View for DoctorInitialized {
    type V = DoctorInitializedView;

    open spec fn view(&self) -> DoctorInitializedView {
        DoctorInitializedView {
            doctor: self.doctor,
            authority: self.authority,
            name: self.name@,
            specialization: self.specialization@,
            timestamp: self.timestamp as int,
        }
    }
}

/// A record was added to a patient.
#[derive(Clone, Debug, PartialEq, Eq)]
pub struct MedicalRecordAdded {
    /// The address of the patient's profile.
    pub patient: Address,
    /// The address of the new record.
    pub record: Address,
    pub record_id: u64,
    pub record_type: String,
    pub timestamp: i64,
}

pub struct MedicalRecordAddedView {
    pub patient: Address,
    pub record: Address,
    pub record_id: nat,
    pub record_type: Seq<char>,
    pub timestamp: int,
}

impl View for MedicalRecordAdded {
    type V = MedicalRecordAddedView;

    open spec fn view(&self) -> MedicalRecordAddedView {
        MedicalRecordAddedView {
            patient: self.patient,
            record: self.record,
            record_id: self.record_id as nat,
            record_type: self.record_type@,
            timestamp: self.timestamp as int,
        }
    }
}

/// A doctor was given access to a record.
#[derive(Clone, Copy, Debug, PartialEq, Eq)]
pub struct AccessGranted {
    pub record: Address,
    pub patient: Address,
    pub doctor: Address,
    pub granted_at: i64,
    pub expires_at: i64,
    pub key_version: u64,
}

pub struct AccessGrantedView {
    pub record: Address,
    pub patient: Address,
    pub doctor: Address,
    pub granted_at: int,
    pub expires_at: int,
    pub key_version: nat,
}

impl View for AccessGranted {
    type V = AccessGrantedView;

    open spec fn view(&self) -> AccessGrantedView {
        AccessGrantedView {
            record: self.record,
            patient: self.patient,
            doctor: self.doctor,
            granted_at: self.granted_at as int,
            expires_at: self.expires_at as int,
            key_version: self.key_version as nat,
        }
    }
}

/// The content key of a record was replaced.
#[derive(Clone, Copy, Debug, PartialEq, Eq)]
pub struct RecordKeyRotated {
    pub record: Address,
    pub patient: Address,
    pub new_key_version: u64,
    pub rotated_at: i64,
}

pub struct RecordKeyRotatedView {
    pub record: Address,
    pub patient: Address,
    pub new_key_version: nat,
    pub rotated_at: int,
}

impl View for RecordKeyRotated {
    type V = RecordKeyRotatedView;

    open spec fn view(&self) -> RecordKeyRotatedView {
        RecordKeyRotatedView {
            record: self.record,
            patient: self.patient,
            new_key_version: self.new_key_version as nat,
            rotated_at: self.rotated_at as int,
        }
    }
}

/// A doctor's copy of a record's key was renewed.
#[derive(Clone, Copy, Debug, PartialEq, Eq)]
pub struct DoctorKeyUpdated {
    pub record: Address,
    pub doctor: Address,
    pub patient: Address,
    pub key_version: u64,
    pub updated_at: i64,
}

pub struct DoctorKeyUpdatedView {
    pub record: Address,
    pub doctor: Address,
    pub patient: Address,
    pub key_version: nat,
    pub updated_at: int,
}

impl View for DoctorKeyUpdated {
    type V = DoctorKeyUpdatedView;

    open spec fn view(&self) -> DoctorKeyUpdatedView {
        DoctorKeyUpdatedView {
            record: self.record,
            doctor: self.doctor,
            patient: self.patient,
            key_version: self.key_version as nat,
            updated_at: self.updated_at as int,
        }
    }
}

} // verus!
