//! The four stored entities, their mathematical views and what makes each
//! well formed.
//!
//! A view holds counters as `nat`, timestamps as `int` and texts as
//! sequences of characters. All contracts of the library are stated over
//! views.

use vstd::prelude::*;
use crate::address::Address;
use crate::constants::{
    ADDRESS_LENGTH, DISCRIMINATOR_LENGTH, ENCRYPTED_KEY_LENGTH, IPFS_HASH_LENGTH, LENGTH_PREFIX,
    MAX_DESCRIPTION_LENGTH, MAX_LICENSE_ID_LENGTH, MAX_NAME_LENGTH, MAX_RECORD_TYPE_LENGTH,
    MAX_SPECIALIZATION_LENGTH, NEVER_EXPIRES,
};
use crate::error::MedChainError;
use crate::validation::{byte_len, Field};

verus! {

/// The profile of a patient. There is one per authority.
#[derive(Clone, Debug, PartialEq, Eq)]
pub struct PatientAccount {
    /// The signer that controls the profile.
    pub authority: Address,
    pub name: String,
    /// How many records the patient has created; also the identifier of the
    /// next one.
    pub record_count: u64,
    pub created_at: i64,
    /// Set when the profile's address was derived; kept, never interpreted.
    pub bump: u8,
}

pub struct PatientAccountView {
    pub authority: Address,
    pub name: Seq<char>,
    pub record_count: nat,
    pub created_at: int,
    pub bump: u8,
}

impl View for PatientAccount {
    type V = PatientAccountView;

    open spec fn view(&self) -> PatientAccountView {
        PatientAccountView {
            authority: self.authority,
            name: self.name@,
            record_count: self.record_count as nat,
            created_at: self.created_at as int,
            bump: self.bump,
        }
    }
}

impl PatientAccountView {
    /// The name fits its field, and the numbers fit their machine types.
    pub open spec fn wf(self) -> bool {
        &&& Field::Name.admits(self.name)
        &&& self.record_count <= u64::MAX
        &&& i64::MIN <= self.created_at <= i64::MAX
    }

    /// The bytes that the profile takes when stored.
    pub open spec fn stored_len(self) -> nat {
        DISCRIMINATOR_LENGTH as nat + ADDRESS_LENGTH as nat + LENGTH_PREFIX as nat + byte_len(
            self.name,
        ) + 8 + 8 + 1
    }

    /// A well-formed profile fits the space allocated for it.
    pub proof fn lemma_fits_allocation(self)
        requires
            self.wf(),
        ensures
            self.stored_len() <= PatientAccount::LEN,
    {
    }
}

impl PatientAccount {
    /// The space allocated for a stored profile, in bytes.
    pub const LEN: usize = DISCRIMINATOR_LENGTH + ADDRESS_LENGTH + (LENGTH_PREFIX
        + MAX_NAME_LENGTH) + 8 + 8 + 1;
}

/// The profile of a doctor. There is one per authority.
#[derive(Clone, Debug, PartialEq, Eq)]
pub struct DoctorAccount {
    /// The signer that controls the profile.
    pub authority: Address,
    pub name: String,
    pub specialization: String,
    pub license_id: String,
    /// Turns from false to true once, by an administrative action.
    pub verified: bool,
    pub created_at: i64,
    /// Set when the profile's address was derived; kept, never interpreted.
    pub bump: u8,
}

pub struct DoctorAccountView {
    pub authority: Address,
    pub name: Seq<char>,
    pub specialization: Seq<char>,
    pub license_id: Seq<char>,
    pub verified: bool,
    pub created_at: int,
    pub bump: u8,
}

impl View for DoctorAccount {
    type V = DoctorAccountView;

    open spec fn view(&self) -> DoctorAccountView {
        DoctorAccountView {
            authority: self.authority,
            name: self.name@,
            specialization: self.specialization@,
            license_id: self.license_id@,
            verified: self.verified,
            created_at: self.created_at as int,
            bump: self.bump,
        }
    }
}

impl DoctorAccountView {
    /// Each text fits its field, and the timestamp fits its machine type.
    pub open spec fn wf(self) -> bool {
        &&& Field::Name.admits(self.name)
        &&& Field::Specialization.admits(self.specialization)
        &&& Field::LicenseId.admits(self.license_id)
        &&& i64::MIN <= self.created_at <= i64::MAX
    }

    /// The bytes that the profile takes when stored.
    pub open spec fn stored_len(self) -> nat {
        DISCRIMINATOR_LENGTH as nat + ADDRESS_LENGTH as nat + LENGTH_PREFIX as nat + byte_len(
            self.name,
        ) + LENGTH_PREFIX as nat + byte_len(self.specialization) + LENGTH_PREFIX as nat
            + byte_len(self.license_id) + 1 + 8 + 1
    }

    /// A well-formed profile fits the space allocated for it.
    pub proof fn lemma_fits_allocation(self)
        requires
            self.wf(),
        ensures
            self.stored_len() <= DoctorAccount::LEN,
    {
    }
}

impl DoctorAccount {
    /// The space allocated for a stored profile, in bytes.
    pub const LEN: usize = DISCRIMINATOR_LENGTH + ADDRESS_LENGTH + (LENGTH_PREFIX
        + MAX_NAME_LENGTH) + (LENGTH_PREFIX + MAX_SPECIALIZATION_LENGTH) + (LENGTH_PREFIX
        + MAX_LICENSE_ID_LENGTH) + 1 + 8 + 1;
}

/// A medical record: metadata, a locator of the encrypted content, and the
/// content key encrypted for the patient.
#[derive(Clone, Debug, PartialEq, Eq)]
pub struct MedicalRecord {
    /// The address of the owning patient's profile.
    pub patient: Address,
    /// The patient-local identifier; never changes.
    pub record_id: u64,
    pub ipfs_hash: String,
    pub record_type: String,
    pub description: String,
    pub created_at: i64,
    pub encrypted_key: String,
    /// Counts the rotations of the content key.
    pub key_version: u64,
    /// Set when the record's address was derived; kept, never interpreted.
    pub bump: u8,
}

pub struct MedicalRecordView {
    pub patient: Address,
    pub record_id: nat,
    pub ipfs_hash: Seq<char>,
    pub record_type: Seq<char>,
    pub description: Seq<char>,
    pub created_at: int,
    pub encrypted_key: Seq<char>,
    pub key_version: nat,
    pub bump: u8,
}

impl View for MedicalRecord {
    type V = MedicalRecordView;

    open spec fn view(&self) -> MedicalRecordView {
        MedicalRecordView {
            patient: self.patient,
            record_id: self.record_id as nat,
            ipfs_hash: self.ipfs_hash@,
            record_type: self.record_type@,
            description: self.description@,
            created_at: self.created_at as int,
            encrypted_key: self.encrypted_key@,
            key_version: self.key_version as nat,
            bump: self.bump,
        }
    }
}

impl MedicalRecordView {
    /// Each text fits its field, and the numbers fit their machine types.
    pub open spec fn wf(self) -> bool {
        &&& Field::IpfsHash.admits(self.ipfs_hash)
        &&& Field::RecordType.admits(self.record_type)
        &&& Field::Description.admits(self.description)
        &&& Field::EncryptedKey.admits(self.encrypted_key)
        &&& self.record_id <= u64::MAX
        &&& self.key_version <= u64::MAX
        &&& i64::MIN <= self.created_at <= i64::MAX
    }

    /// The bytes that the record takes when stored.
    pub open spec fn stored_len(self) -> nat {
        DISCRIMINATOR_LENGTH as nat + ADDRESS_LENGTH as nat + 8 + LENGTH_PREFIX as nat + byte_len(
            self.ipfs_hash,
        ) + LENGTH_PREFIX as nat + byte_len(self.record_type) + LENGTH_PREFIX as nat + byte_len(
            self.description,
        ) + 8 + LENGTH_PREFIX as nat + byte_len(self.encrypted_key) + 8 + 1
    }

    /// A well-formed record fits the space allocated for it.
    pub proof fn lemma_fits_allocation(self)
        requires
            self.wf(),
        ensures
            self.stored_len() <= MedicalRecord::LEN,
    {
    }
}

impl MedicalRecord {
    /// The space allocated for a stored record, in bytes.
    pub const LEN: usize = DISCRIMINATOR_LENGTH + ADDRESS_LENGTH + 8 + (LENGTH_PREFIX
        + IPFS_HASH_LENGTH) + (LENGTH_PREFIX + MAX_RECORD_TYPE_LENGTH) + (LENGTH_PREFIX
        + MAX_DESCRIPTION_LENGTH) + 8 + (LENGTH_PREFIX + ENCRYPTED_KEY_LENGTH) + 8 + 1;
}

/// The access of one doctor to one record: a copy of the record's content
/// key, encrypted for the doctor, with the key version it belongs to.
#[derive(Clone, Debug, PartialEq, Eq)]
pub struct AccessGrant {
    /// The address of the record.
    pub record: Address,
    /// The address of the owning patient's profile.
    pub patient: Address,
    /// The identity of the doctor.
    pub doctor: Address,
    pub encrypted_key: String,
    /// The key version of the record that `encrypted_key` belongs to.
    pub key_version: u64,
    pub granted_at: i64,
    /// `NEVER_EXPIRES`, or the first instant at which the grant is no longer
    /// valid.
    pub expires_at: i64,
    pub is_active: bool,
    /// Set when the grant's address was derived; kept, never interpreted.
    pub bump: u8,
}

pub struct AccessGrantView {
    pub record: Address,
    pub patient: Address,
    pub doctor: Address,
    pub encrypted_key: Seq<char>,
    pub key_version: nat,
    pub granted_at: int,
    pub expires_at: int,
    pub is_active: bool,
    pub bump: u8,
}

impl View for AccessGrant {
    type V = AccessGrantView;

    open spec fn view(&self) -> AccessGrantView {
        AccessGrantView {
            record: self.record,
            patient: self.patient,
            doctor: self.doctor,
            encrypted_key: self.encrypted_key@,
            key_version: self.key_version as nat,
            granted_at: self.granted_at as int,
            expires_at: self.expires_at as int,
            is_active: self.is_active,
            bump: self.bump,
        }
    }
}

impl AccessGrantView {
    /// The key fits its field, and the numbers fit their machine types.
    pub open spec fn wf(self) -> bool {
        &&& Field::EncryptedKey.admits(self.encrypted_key)
        &&& self.key_version <= u64::MAX
        &&& i64::MIN <= self.granted_at <= i64::MAX
        &&& i64::MIN <= self.expires_at <= i64::MAX
    }

    /// The bytes that the grant takes when stored.
    pub open spec fn stored_len(self) -> nat {
        DISCRIMINATOR_LENGTH as nat + 3 * ADDRESS_LENGTH as nat + LENGTH_PREFIX as nat + byte_len(
            self.encrypted_key,
        ) + 8 + 8 + 8 + 1 + 1
    }

    /// A well-formed grant fits the space allocated for it.
    pub proof fn lemma_fits_allocation(self)
        requires
            self.wf(),
        ensures
            self.stored_len() <= AccessGrant::LEN,
    {
    }

    /// The grant is for this record of this patient, and does not claim a
    /// key version that the record has not reached.
    pub open spec fn belongs_to(self, record_key: Address, record: MedicalRecordView) -> bool {
        &&& self.record == record_key
        &&& self.patient == record.patient
        &&& self.key_version <= record.key_version
    }

    /// The grant has no expiry, or `now` is before it.
    pub open spec fn unexpired_at(self, now: int) -> bool {
        self.expires_at == NEVER_EXPIRES || now < self.expires_at
    }

    /// The grant's key is for the record's current key version.
    pub open spec fn is_current_for(self, record: MedicalRecordView) -> bool {
        self.key_version == record.key_version
    }

    /// Whether the grant lets its doctor decrypt the record at `now`: it is
    /// active, unexpired, and holds the key of the record's current version.
    pub open spec fn grants_access(self, record: MedicalRecordView, now: int) -> bool {
        &&& self.is_active
        &&& self.unexpired_at(now)
        &&& self.is_current_for(record)
    }

    /// What `check_access` answers. A deactivated grant is reported as
    /// revoked; an active one that is past its expiry or holds a superseded
    /// key is reported as expired.
    pub open spec fn access_verdict(self, record: MedicalRecordView, now: int) -> Result<
        (),
        MedChainError,
    > {
        if !self.is_active {
            Err(MedChainError::AccessRevoked)
        } else if !self.unexpired_at(now) || !self.is_current_for(record) {
            Err(MedChainError::AccessExpired)
        } else {
            Ok(())
        }
    }
}

impl AccessGrant {
    /// The space allocated for a stored grant, in bytes.
    pub const LEN: usize = DISCRIMINATOR_LENGTH + ADDRESS_LENGTH + ADDRESS_LENGTH + ADDRESS_LENGTH
        + (LENGTH_PREFIX + ENCRYPTED_KEY_LENGTH) + 8 + 8 + 8 + 1 + 1;

    /// Decides whether the grant lets its doctor decrypt `record` at `now`.
    /// `record` is the record that the grant refers to.
    pub fn check_access(&self, record: &MedicalRecord, now: i64) -> (verdict: Result<
        (),
        MedChainError,
    >)
        ensures
            verdict == self@.access_verdict(record@, now as int),
            verdict is Ok <==> self@.grants_access(record@, now as int),
    {
        if !self.is_active {
            return Err(MedChainError::AccessRevoked);
        }
        if self.expires_at != NEVER_EXPIRES && now >= self.expires_at {
            return Err(MedChainError::AccessExpired);
        }
        if self.key_version != record.key_version {
            return Err(MedChainError::AccessExpired);
        }
        Ok(())
    }
}

} // verus!
