//! What holds of the operations taken together.
//!
//! Each statement here is proved from the meaning of the operations as their
//! modules define it, which is what the contracts of the `handler`
//! functions promise of the executable code.

use vstd::prelude::*;
use crate::address::Address;
use crate::constants::{INITIAL_KEY_VERSION, NEVER_EXPIRES};
use crate::error::MedChainError;
use crate::instructions::add_medical_record;
use crate::instructions::add_medical_record::AddMedicalRecordView;
use crate::instructions::grant_access;
use crate::instructions::grant_access::GrantAccessView;
use crate::instructions::initialize_doctor;
use crate::instructions::initialize_doctor::InitializeDoctor;
use crate::instructions::initialize_patient;
use crate::instructions::initialize_patient::InitializePatient;
use crate::instructions::revoke_access;
use crate::instructions::revoke_access::RevokeAccessView;
use crate::instructions::rotate_record_key;
use crate::instructions::rotate_record_key::RotateRecordKeyView;
use crate::instructions::update_doctor_key;
use crate::instructions::update_doctor_key::UpdateDoctorKeyView;
use crate::instructions::verify_doctor;
use crate::instructions::verify_doctor::VerifyDoctorView;
use crate::state::{AccessGrantView, MedicalRecordView, PatientAccountView};
use crate::validation::{byte_len, expiry, len_verdict, Field};

verus! {

// ---------------------------------------------------------------------
// Field lengths
// ---------------------------------------------------------------------

/// A text of at most the field's capacity passes the length check, so one
/// of exactly that length does; a text one byte longer fails it with the
/// field's own error.
pub proof fn lemma_length_boundary(field: Field, text: Seq<char>)
    ensures
        byte_len(text) <= field.max_len() ==> len_verdict(field, text) is Ok,
        byte_len(text) == field.max_len() ==> len_verdict(field, text) is Ok,
        byte_len(text) == field.max_len() + 1 ==> len_verdict(field, text) == Err::<
            (),
            MedChainError,
        >(field.too_long()),
{
}

/// A patient's name of exactly 50 bytes is accepted; one of 51 bytes is
/// refused as too long.
pub proof fn lemma_patient_name_boundary(name: Seq<char>)
    ensures
        byte_len(name) == 50 ==> initialize_patient::refusal(name) is None,
        byte_len(name) == 51 ==> initialize_patient::refusal(name) == Some(
            MedChainError::NameTooLong,
        ),
{
}

/// A doctor whose name, specialization and license identifier have exactly
/// 50, 50 and 30 bytes is accepted; one byte more in one of them, the
/// earlier ones fitting, is refused with that field's error.
pub proof fn lemma_doctor_fields_boundary(
    name: Seq<char>,
    specialization: Seq<char>,
    license_id: Seq<char>,
)
    ensures
        byte_len(name) == 50 && byte_len(specialization) == 50 && byte_len(license_id) == 30
            ==> initialize_doctor::refusal(name, specialization, license_id) is None,
        byte_len(name) == 51 ==> initialize_doctor::refusal(name, specialization, license_id)
            == Some(MedChainError::NameTooLong),
        byte_len(name) <= 50 && byte_len(specialization) == 51 ==> initialize_doctor::refusal(
            name,
            specialization,
            license_id,
        ) == Some(MedChainError::SpecializationTooLong),
        byte_len(name) <= 50 && byte_len(specialization) <= 50 && byte_len(license_id) == 31
            ==> initialize_doctor::refusal(name, specialization, license_id) == Some(
            MedChainError::LicenseIdTooLong,
        ),
{
}

/// For a request by the patient's authority: a record whose type,
/// description, locator and key have exactly 20, 200, 46 and 128 bytes is
/// accepted, given the right identifier and room in the counter; one byte
/// more in one of them, the earlier ones fitting, is refused with that
/// field's error.
pub proof fn lemma_record_fields_boundary(
    ctx: AddMedicalRecordView,
    record_id: nat,
    record_type: Seq<char>,
    description: Seq<char>,
    ipfs_hash: Seq<char>,
    encrypted_key: Seq<char>,
)
    requires
        ctx.authority == ctx.patient_account.authority,
    ensures
        byte_len(record_type) == 20 && byte_len(description) == 200 && byte_len(ipfs_hash) == 46
            && byte_len(encrypted_key) == 128 && record_id == ctx.patient_account.record_count
            && record_id < u64::MAX ==> add_medical_record::refusal(
            ctx,
            record_id,
            record_type,
            description,
            ipfs_hash,
            encrypted_key,
        ) is None,
        byte_len(record_type) == 21 ==> add_medical_record::refusal(
            ctx,
            record_id,
            record_type,
            description,
            ipfs_hash,
            encrypted_key,
        ) == Some(MedChainError::RecordTypeTooLong),
        byte_len(record_type) <= 20 && byte_len(description) == 201
            ==> add_medical_record::refusal(
            ctx,
            record_id,
            record_type,
            description,
            ipfs_hash,
            encrypted_key,
        ) == Some(MedChainError::DescriptionTooLong),
        byte_len(record_type) <= 20 && byte_len(description) <= 200 && byte_len(ipfs_hash) == 47
            ==> add_medical_record::refusal(
            ctx,
            record_id,
            record_type,
            description,
            ipfs_hash,
            encrypted_key,
        ) == Some(MedChainError::IpfsHashTooLong),
        byte_len(record_type) <= 20 && byte_len(description) <= 200 && byte_len(ipfs_hash) <= 46
            && byte_len(encrypted_key) == 129 ==> add_medical_record::refusal(
            ctx,
            record_id,
            record_type,
            description,
            ipfs_hash,
            encrypted_key,
        ) == Some(MedChainError::EncryptedKeyTooLong),
{
}

/// For a request by the authority of the record's patient: a rotation whose
/// locator and key have exactly 46 and 128 bytes is accepted, given room in
/// the version counter; one byte more in one of them, the earlier one
/// fitting, is refused with that field's error.
pub proof fn lemma_rotation_fields_boundary(
    ctx: RotateRecordKeyView,
    new_ipfs_hash: Seq<char>,
    new_encrypted_key: Seq<char>,
)
    requires
        ctx.authority == ctx.patient_account.authority,
        ctx.medical_record.patient == ctx.patient_key,
    ensures
        byte_len(new_ipfs_hash) == 46 && byte_len(new_encrypted_key) == 128
            && ctx.medical_record.key_version < u64::MAX ==> rotate_record_key::refusal(
            ctx,
            new_ipfs_hash,
            new_encrypted_key,
        ) is None,
        byte_len(new_ipfs_hash) == 47 ==> rotate_record_key::refusal(
            ctx,
            new_ipfs_hash,
            new_encrypted_key,
        ) == Some(MedChainError::IpfsHashTooLong),
        byte_len(new_ipfs_hash) <= 46 && byte_len(new_encrypted_key) == 129
            ==> rotate_record_key::refusal(ctx, new_ipfs_hash, new_encrypted_key) == Some(
            MedChainError::EncryptedKeyTooLong,
        ),
{
}

/// For a request by the authority of the record's patient: a grant whose
/// key has exactly 128 bytes is accepted, given an expiry that fits; a key
/// of 129 bytes is refused as too long.
pub proof fn lemma_grant_key_boundary(
    ctx: GrantAccessView,
    now: int,
    duration_days: nat,
    encrypted_key_for_doctor: Seq<char>,
)
    requires
        ctx.authority == ctx.patient_account.authority,
        ctx.medical_record.patient == ctx.patient_key,
    ensures
        byte_len(encrypted_key_for_doctor) == 128 && expiry(now, duration_days) is Some
            ==> grant_access::refusal(ctx, now, duration_days, encrypted_key_for_doctor) is None,
        byte_len(encrypted_key_for_doctor) == 129 ==> grant_access::refusal(
            ctx,
            now,
            duration_days,
            encrypted_key_for_doctor,
        ) == Some(MedChainError::EncryptedKeyTooLong),
{
}

/// For an authorized request on an active grant: a new key of exactly 128
/// bytes is accepted; one of 129 bytes is refused as too long, whatever the
/// grant's state.
pub proof fn lemma_renewal_key_boundary(
    ctx: UpdateDoctorKeyView,
    new_encrypted_key_for_doctor: Seq<char>,
)
    requires
        update_doctor_key::authorized(ctx),
    ensures
        byte_len(new_encrypted_key_for_doctor) == 128 && ctx.access_grant.is_active
            ==> update_doctor_key::refusal(ctx, new_encrypted_key_for_doctor) is None,
        byte_len(new_encrypted_key_for_doctor) == 129 ==> update_doctor_key::refusal(
            ctx,
            new_encrypted_key_for_doctor,
        ) == Some(MedChainError::EncryptedKeyTooLong),
{
}

// ---------------------------------------------------------------------
// Record identifiers
// ---------------------------------------------------------------------

/// One request to add a record, apart from the patient's profile that it
/// will meet.
pub struct AddRequest {
    pub authority: Address,
    pub patient_key: Address,
    pub medical_record_key: Address,
    pub bump: u8,
    pub now: int,
    pub record_id: nat,
    pub record_type: Seq<char>,
    pub description: Seq<char>,
    pub ipfs_hash: Seq<char>,
    pub encrypted_key: Seq<char>,
}

impl AddRequest {
    /// What the operation reads when the request meets `patient`.
    pub open spec fn meeting(self, patient: PatientAccountView) -> AddMedicalRecordView {
        AddMedicalRecordView {
            authority: self.authority,
            patient_key: self.patient_key,
            patient_account: patient,
            medical_record_key: self.medical_record_key,
            bump: self.bump,
        }
    }

    /// Whether the request is accepted when it meets `patient`.
    pub open spec fn accepted_by(self, patient: PatientAccountView) -> bool {
        add_medical_record::refusal(
            self.meeting(patient),
            self.record_id,
            self.record_type,
            self.description,
            self.ipfs_hash,
            self.encrypted_key,
        ) is None
    }

    /// The record that the request creates when it meets `patient`.
    pub open spec fn record_for(self, patient: PatientAccountView) -> MedicalRecordView {
        add_medical_record::created(
            self.meeting(patient),
            self.now,
            self.record_id,
            self.record_type,
            self.description,
            self.ipfs_hash,
            self.encrypted_key,
        )
    }
}

/// The patient's profile after the requests were made one after the other.
/// A refused request leaves the profile as it found it.
pub open spec fn patient_after(
    patient: PatientAccountView,
    requests: Seq<AddRequest>,
) -> PatientAccountView
    decreases requests.len(),
{
    if requests.len() == 0 {
        patient
    } else {
        let before = patient_after(patient, requests.drop_last());
        if requests.last().accepted_by(before) {
            add_medical_record::counted(before)
        } else {
            before
        }
    }
}

/// The records that the requests created, in the order of their creation.
pub open spec fn records_after(
    patient: PatientAccountView,
    requests: Seq<AddRequest>,
) -> Seq<MedicalRecordView>
    decreases requests.len(),
{
    if requests.len() == 0 {
        Seq::empty()
    } else {
        let before = patient_after(patient, requests.drop_last());
        let records = records_after(patient, requests.drop_last());
        if requests.last().accepted_by(before) {
            records.push(requests.last().record_for(before))
        } else {
            records
        }
    }
}

/// Whether one of the records carries the identifier `id`.
pub open spec fn carries_id(records: Seq<MedicalRecordView>, id: nat) -> bool {
    exists|i: int| 0 <= i < records.len() && (#[trigger] records[i]).record_id == id
}

/// However many requests are made, and whichever of them are refused: the
/// record count has grown by the number of records created, the record
/// created as the i-th carries the identifier `count at the start + i`, and
/// nothing else in the profile has changed.
pub proof fn lemma_record_ids_are_sequential(
    patient: PatientAccountView,
    requests: Seq<AddRequest>,
)
    ensures
        patient_after(patient, requests).record_count == patient.record_count + records_after(
            patient,
            requests,
        ).len(),
        forall|i: int|
            0 <= i < records_after(patient, requests).len() ==> (#[trigger] records_after(
                patient,
                requests,
            )[i]).record_id == patient.record_count + i,
        patient_after(patient, requests) == (PatientAccountView {
            record_count: patient_after(patient, requests).record_count,
            ..patient
        }),
    decreases requests.len(),
{
    if requests.len() > 0 {
        lemma_record_ids_are_sequential(patient, requests.drop_last());
    }
}

/// For a patient who starts without records: after N records were created,
/// the record count is N, and the identifiers are 0, 1, ..., N - 1 in the
/// order of creation: no two records share one, and an identifier is
/// carried exactly if it is below N.
pub proof fn lemma_fresh_patient_counts_from_zero(
    patient: PatientAccountView,
    requests: Seq<AddRequest>,
)
    requires
        patient.record_count == 0,
    ensures
        patient_after(patient, requests).record_count == records_after(patient, requests).len(),
        forall|i: int|
            0 <= i < records_after(patient, requests).len() ==> (#[trigger] records_after(
                patient,
                requests,
            )[i]).record_id == i,
        forall|i: int, j: int|
            0 <= i < j < records_after(patient, requests).len() ==> (#[trigger] records_after(
                patient,
                requests,
            )[i]).record_id != (#[trigger] records_after(patient, requests)[j]).record_id,
        forall|id: nat| #[trigger]
            carries_id(records_after(patient, requests), id) <==> id < records_after(
                patient,
                requests,
            ).len(),
{
    lemma_record_ids_are_sequential(patient, requests);
    let records = records_after(patient, requests);
    assert forall|id: nat| #[trigger] carries_id(records, id) <==> id < records.len() by {
        if id < records.len() {
            assert(records[id as int].record_id == id);
        }
    }
}

/// An accepted request gives the new record the patient's record count as
/// its identifier and the patient's profile as its owner, starts its key
/// version at the initial one, and raises the count by exactly one.
pub proof fn lemma_new_record_takes_the_count(
    ctx: AddMedicalRecordView,
    now: int,
    record_id: nat,
    record_type: Seq<char>,
    description: Seq<char>,
    ipfs_hash: Seq<char>,
    encrypted_key: Seq<char>,
)
    requires
        add_medical_record::refusal(
            ctx,
            record_id,
            record_type,
            description,
            ipfs_hash,
            encrypted_key,
        ) is None,
    ensures
        add_medical_record::created(
            ctx,
            now,
            record_id,
            record_type,
            description,
            ipfs_hash,
            encrypted_key,
        ).record_id == ctx.patient_account.record_count,
        add_medical_record::created(
            ctx,
            now,
            record_id,
            record_type,
            description,
            ipfs_hash,
            encrypted_key,
        ).patient == ctx.patient_key,
        add_medical_record::created(
            ctx,
            now,
            record_id,
            record_type,
            description,
            ipfs_hash,
            encrypted_key,
        ).key_version == INITIAL_KEY_VERSION,
        add_medical_record::counted(ctx.patient_account).record_count
            == ctx.patient_account.record_count + 1,
{
}

/// A request whose identifier is not the patient's record count is refused,
/// whatever else it holds.
pub proof fn lemma_wrong_record_id_is_refused(
    ctx: AddMedicalRecordView,
    record_id: nat,
    record_type: Seq<char>,
    description: Seq<char>,
    ipfs_hash: Seq<char>,
    encrypted_key: Seq<char>,
)
    requires
        record_id != ctx.patient_account.record_count,
    ensures
        add_medical_record::refusal(
            ctx,
            record_id,
            record_type,
            description,
            ipfs_hash,
            encrypted_key,
        ) is Some,
{
}

/// A request by the patient's authority, with four texts that fit, whose
/// identifier is not the patient's record count is refused with
/// `InvalidRecordId`. (For another caller, or a text that is too long, an
/// earlier check answers.)
pub proof fn lemma_wrong_record_id_is_invalid(
    ctx: AddMedicalRecordView,
    record_id: nat,
    record_type: Seq<char>,
    description: Seq<char>,
    ipfs_hash: Seq<char>,
    encrypted_key: Seq<char>,
)
    requires
        record_id != ctx.patient_account.record_count,
        ctx.authority == ctx.patient_account.authority,
        Field::RecordType.admits(record_type),
        Field::Description.admits(description),
        Field::IpfsHash.admits(ipfs_hash),
        Field::EncryptedKey.admits(encrypted_key),
    ensures
        add_medical_record::refusal(
            ctx,
            record_id,
            record_type,
            description,
            ipfs_hash,
            encrypted_key,
        ) == Some(MedChainError::InvalidRecordId),
{
}

// ---------------------------------------------------------------------
// Key versions
// ---------------------------------------------------------------------

/// One request to rotate a record's key, apart from the record that it
/// will meet.
pub struct Rotation {
    pub authority: Address,
    pub patient_key: Address,
    pub patient_account: PatientAccountView,
    pub medical_record_key: Address,
    pub new_ipfs_hash: Seq<char>,
    pub new_encrypted_key: Seq<char>,
}

impl Rotation {
    /// What the operation reads when the request meets `record`.
    pub open spec fn meeting(self, record: MedicalRecordView) -> RotateRecordKeyView {
        RotateRecordKeyView {
            authority: self.authority,
            patient_key: self.patient_key,
            patient_account: self.patient_account,
            medical_record_key: self.medical_record_key,
            medical_record: record,
        }
    }

    /// Whether the request is accepted when it meets `record`.
    pub open spec fn accepted_by(self, record: MedicalRecordView) -> bool {
        rotate_record_key::refusal(
            self.meeting(record),
            self.new_ipfs_hash,
            self.new_encrypted_key,
        ) is None
    }
}

/// The record after the rotations were requested one after the other. A
/// refused request leaves the record as it found it.
pub open spec fn record_after(record: MedicalRecordView, rotations: Seq<Rotation>) -> MedicalRecordView
    decreases rotations.len(),
{
    if rotations.len() == 0 {
        record
    } else {
        let before = record_after(record, rotations.drop_last());
        if rotations.last().accepted_by(before) {
            rotate_record_key::rotated(
                before,
                rotations.last().new_ipfs_hash,
                rotations.last().new_encrypted_key,
            )
        } else {
            before
        }
    }
}

/// How many of the rotations were accepted.
pub open spec fn rotations_done(record: MedicalRecordView, rotations: Seq<Rotation>) -> nat
    decreases rotations.len(),
{
    if rotations.len() == 0 {
        0
    } else {
        let before = record_after(record, rotations.drop_last());
        let done = rotations_done(record, rotations.drop_last());
        if rotations.last().accepted_by(before) {
            done + 1
        } else {
            done
        }
    }
}

/// An accepted rotation raises the key version by exactly one, and leaves
/// the record's owner, identifier, type, description and age alone.
pub proof fn lemma_rotation_is_one_step(
    ctx: RotateRecordKeyView,
    new_ipfs_hash: Seq<char>,
    new_encrypted_key: Seq<char>,
)
    requires
        rotate_record_key::refusal(ctx, new_ipfs_hash, new_encrypted_key) is None,
    ensures
        rotate_record_key::rotated(
            ctx.medical_record,
            new_ipfs_hash,
            new_encrypted_key,
        ).key_version == ctx.medical_record.key_version + 1,
        rotate_record_key::rotated(ctx.medical_record, new_ipfs_hash, new_encrypted_key)
            == (MedicalRecordView {
            ipfs_hash: new_ipfs_hash,
            encrypted_key: new_encrypted_key,
            key_version: ctx.medical_record.key_version + 1,
            ..ctx.medical_record
        }),
        rotate_record_key::rotated(
            ctx.medical_record,
            new_ipfs_hash,
            new_encrypted_key,
        ).key_version <= u64::MAX,
{
}

/// After K accepted rotations the key version is the one at the start plus
/// K; refused requests in between do not count. The record's owner and
/// identifier never change.
pub proof fn lemma_key_version_counts_rotations(record: MedicalRecordView, rotations: Seq<Rotation>)
    ensures
        record_after(record, rotations).key_version == record.key_version + rotations_done(
            record,
            rotations,
        ),
        record_after(record, rotations).record_id == record.record_id,
        record_after(record, rotations).patient == record.patient,
        rotations_done(record, rotations) <= rotations.len(),
    decreases rotations.len(),
{
    if rotations.len() > 0 {
        lemma_key_version_counts_rotations(record, rotations.drop_last());
    }
}

/// A grant that is not ahead of its record falls strictly behind it when
/// the record's key is rotated, and then gives no access at any time, the
/// rotation having left the grant untouched.
pub proof fn lemma_rotation_makes_grant_stale(
    grant: AccessGrantView,
    ctx: RotateRecordKeyView,
    new_ipfs_hash: Seq<char>,
    new_encrypted_key: Seq<char>,
    now: int,
)
    requires
        grant.key_version <= ctx.medical_record.key_version,
        rotate_record_key::refusal(ctx, new_ipfs_hash, new_encrypted_key) is None,
    ensures
        grant.key_version < rotate_record_key::rotated(
            ctx.medical_record,
            new_ipfs_hash,
            new_encrypted_key,
        ).key_version,
        !grant.grants_access(
            rotate_record_key::rotated(ctx.medical_record, new_ipfs_hash, new_encrypted_key),
            now,
        ),
        grant.access_verdict(
            rotate_record_key::rotated(ctx.medical_record, new_ipfs_hash, new_encrypted_key),
            now,
        ) is Err,
{
}

/// An accepted renewal brings the grant to the record's key version. From
/// then on the grant gives access exactly while it has not expired.
pub proof fn lemma_renewal_makes_grant_current(
    ctx: UpdateDoctorKeyView,
    new_encrypted_key_for_doctor: Seq<char>,
    now: int,
)
    requires
        update_doctor_key::refusal(ctx, new_encrypted_key_for_doctor) is None,
    ensures
        update_doctor_key::renewed(
            ctx.access_grant,
            ctx.medical_record,
            new_encrypted_key_for_doctor,
        ).key_version == ctx.medical_record.key_version,
        update_doctor_key::renewed(
            ctx.access_grant,
            ctx.medical_record,
            new_encrypted_key_for_doctor,
        ).belongs_to(ctx.medical_record_key, ctx.medical_record),
        update_doctor_key::renewed(
            ctx.access_grant,
            ctx.medical_record,
            new_encrypted_key_for_doctor,
        ).grants_access(ctx.medical_record, now) <==> ctx.access_grant.unexpired_at(now),
{
}

/// A new grant is for the record and the patient it was asked for, and
/// carries the record's key version.
pub proof fn lemma_new_grant_belongs_to_record(
    ctx: GrantAccessView,
    now: int,
    doctor: Address,
    duration_days: nat,
    encrypted_key_for_doctor: Seq<char>,
)
    requires
        grant_access::refusal(ctx, now, duration_days, encrypted_key_for_doctor) is None,
    ensures
        grant_access::created(
            ctx,
            now,
            doctor,
            duration_days,
            encrypted_key_for_doctor,
        ).belongs_to(ctx.medical_record_key, ctx.medical_record),
        grant_access::created(
            ctx,
            now,
            doctor,
            duration_days,
            encrypted_key_for_doctor,
        ).is_current_for(ctx.medical_record),
        grant_access::created(ctx, now, doctor, duration_days, encrypted_key_for_doctor).is_active,
{
}

/// A grant that belongs to a record still belongs to it after the record's
/// key was rotated: a grant may lag its record, it is never ahead of it.
pub proof fn lemma_rotation_keeps_grant_behind(
    grant: AccessGrantView,
    ctx: RotateRecordKeyView,
    new_ipfs_hash: Seq<char>,
    new_encrypted_key: Seq<char>,
)
    requires
        grant.belongs_to(ctx.medical_record_key, ctx.medical_record),
    ensures
        grant.belongs_to(
            ctx.medical_record_key,
            rotate_record_key::rotated(ctx.medical_record, new_ipfs_hash, new_encrypted_key),
        ),
{
}

/// A revoked grant gives no access at any time, and is not renewed.
pub proof fn lemma_revoked_grant_stays_shut(
    ctx: RevokeAccessView,
    record: MedicalRecordView,
    now: int,
    later: UpdateDoctorKeyView,
    new_encrypted_key_for_doctor: Seq<char>,
)
    requires
        later.access_grant == revoke_access::revoked(ctx.access_grant),
    ensures
        !revoke_access::revoked(ctx.access_grant).grants_access(record, now),
        revoke_access::revoked(ctx.access_grant).access_verdict(record, now) == Err::<
            (),
            MedChainError,
        >(MedChainError::AccessRevoked),
        update_doctor_key::refusal(later, new_encrypted_key_for_doctor) is Some,
{
}

// ---------------------------------------------------------------------
// Expiry
// ---------------------------------------------------------------------

/// A grant issued for zero days gives access at every time, as long as it
/// stays active and the record's key is not rotated.
pub proof fn lemma_unlimited_grant_never_expires(
    ctx: GrantAccessView,
    now: int,
    doctor: Address,
    encrypted_key_for_doctor: Seq<char>,
    later: int,
)
    requires
        grant_access::refusal(ctx, now, 0, encrypted_key_for_doctor) is None,
    ensures
        grant_access::created(ctx, now, doctor, 0, encrypted_key_for_doctor).expires_at
            == NEVER_EXPIRES,
        grant_access::created(ctx, now, doctor, 0, encrypted_key_for_doctor).grants_access(
            ctx.medical_record,
            later,
        ),
{
}

/// A grant issued at `now` for D > 0 days expires at `now + D * 86400`. As
/// long as it stays active and the record's key is not rotated, it gives
/// access at every time before its expiry.
pub proof fn lemma_limited_grant_is_valid_until_expiry(
    ctx: GrantAccessView,
    now: int,
    doctor: Address,
    duration_days: nat,
    encrypted_key_for_doctor: Seq<char>,
    later: int,
)
    requires
        duration_days > 0,
        grant_access::refusal(ctx, now, duration_days, encrypted_key_for_doctor) is None,
        later < now + duration_days * 86400,
    ensures
        grant_access::created(
            ctx,
            now,
            doctor,
            duration_days,
            encrypted_key_for_doctor,
        ).granted_at == now,
        grant_access::created(
            ctx,
            now,
            doctor,
            duration_days,
            encrypted_key_for_doctor,
        ).expires_at == now + duration_days * 86400,
        grant_access::created(
            ctx,
            now,
            doctor,
            duration_days,
            encrypted_key_for_doctor,
        ).grants_access(ctx.medical_record, later),
{
}

/// A grant issued at `now` for D > 0 days gives access at no time from its
/// expiry `now + D * 86400` on, unless that expiry falls on the very value
/// that stands for "never", which reads as no expiry at all.
pub proof fn lemma_limited_grant_is_invalid_from_expiry(
    ctx: GrantAccessView,
    now: int,
    doctor: Address,
    duration_days: nat,
    encrypted_key_for_doctor: Seq<char>,
    later: int,
)
    requires
        duration_days > 0,
        grant_access::refusal(ctx, now, duration_days, encrypted_key_for_doctor) is None,
        now + duration_days * 86400 != NEVER_EXPIRES,
        later >= now + duration_days * 86400,
    ensures
        !grant_access::created(
            ctx,
            now,
            doctor,
            duration_days,
            encrypted_key_for_doctor,
        ).grants_access(ctx.medical_record, later),
        grant_access::created(
            ctx,
            now,
            doctor,
            duration_days,
            encrypted_key_for_doctor,
        ).access_verdict(ctx.medical_record, later) == Err::<(), MedChainError>(
            MedChainError::AccessExpired,
        ),
{
}

/// A duration that would carry the expiry past the largest signed 64-bit
/// timestamp has no expiry, and a request with it is refused, whatever else
/// it holds.
pub proof fn lemma_overflowing_duration_is_refused(
    ctx: GrantAccessView,
    now: int,
    duration_days: nat,
    encrypted_key_for_doctor: Seq<char>,
)
    requires
        now <= i64::MAX,
        now + duration_days * 86400 > i64::MAX,
    ensures
        expiry(now, duration_days) is None,
        grant_access::refusal(ctx, now, duration_days, encrypted_key_for_doctor) is Some,
{
}

/// A request by the authority of the record's patient, with a key that
/// fits, whose duration would carry the expiry past the largest signed
/// 64-bit timestamp is refused with `ArithmeticOverflow`. (For another
/// caller, or a key that is too long, an earlier check answers.)
pub proof fn lemma_overflowing_duration_is_an_overflow(
    ctx: GrantAccessView,
    now: int,
    duration_days: nat,
    encrypted_key_for_doctor: Seq<char>,
)
    requires
        now <= i64::MAX,
        now + duration_days * 86400 > i64::MAX,
        ctx.authority == ctx.patient_account.authority,
        ctx.medical_record.patient == ctx.patient_key,
        Field::EncryptedKey.admits(encrypted_key_for_doctor),
    ensures
        grant_access::refusal(ctx, now, duration_days, encrypted_key_for_doctor) == Some(
            MedChainError::ArithmeticOverflow,
        ),
{
}

/// From a time that is not negative, a duration is refused for overflow
/// exactly when the expiry would pass the largest signed 64-bit timestamp.
pub proof fn lemma_expiry_overflows_only_past_the_end(now: int, duration_days: nat)
    requires
        0 <= now <= i64::MAX,
    ensures
        expiry(now, duration_days) is None <==> now + duration_days * 86400 > i64::MAX,
        expiry(now, duration_days) matches Some(expires_at) ==> now <= expires_at <= i64::MAX,
{
}

// ---------------------------------------------------------------------
// Verification of doctors
// ---------------------------------------------------------------------

/// A doctor is verified once: the request is accepted exactly for a doctor
/// who is not verified, it changes nothing but that, and the same request
/// made again is refused.
pub proof fn lemma_verification_happens_once(ctx: VerifyDoctorView)
    ensures
        verify_doctor::refusal(ctx) is None <==> !ctx.doctor_account.verified,
        verify_doctor::verified(ctx.doctor_account).verified,
        verify_doctor::refusal(
            VerifyDoctorView {
                doctor_account: verify_doctor::verified(ctx.doctor_account),
                ..ctx
            },
        ) == Some(MedChainError::AlreadyVerified),
{
}

// ---------------------------------------------------------------------
// Well-formedness
// ---------------------------------------------------------------------

/// A patient's profile that an accepted request creates is well formed and
/// has no records, the time being a signed 64-bit timestamp.
pub proof fn lemma_new_patient_is_well_formed(ctx: InitializePatient, now: int, name: Seq<char>)
    requires
        i64::MIN <= now <= i64::MAX,
        initialize_patient::refusal(name) is None,
    ensures
        initialize_patient::created(ctx, now, name).wf(),
        initialize_patient::created(ctx, now, name).record_count == 0,
{
}

/// A doctor's profile that an accepted request creates is well formed.
pub proof fn lemma_new_doctor_is_well_formed(
    ctx: InitializeDoctor,
    now: int,
    name: Seq<char>,
    specialization: Seq<char>,
    license_id: Seq<char>,
)
    requires
        i64::MIN <= now <= i64::MAX,
        initialize_doctor::refusal(name, specialization, license_id) is None,
    ensures
        initialize_doctor::created(ctx, now, name, specialization, license_id).wf(),
        !initialize_doctor::created(ctx, now, name, specialization, license_id).verified,
{
}

/// A record that an accepted request creates is well formed, and so is the
/// patient's profile after it, if it was before.
pub proof fn lemma_new_record_is_well_formed(
    ctx: AddMedicalRecordView,
    now: int,
    record_id: nat,
    record_type: Seq<char>,
    description: Seq<char>,
    ipfs_hash: Seq<char>,
    encrypted_key: Seq<char>,
)
    requires
        i64::MIN <= now <= i64::MAX,
        add_medical_record::refusal(
            ctx,
            record_id,
            record_type,
            description,
            ipfs_hash,
            encrypted_key,
        ) is None,
    ensures
        add_medical_record::created(
            ctx,
            now,
            record_id,
            record_type,
            description,
            ipfs_hash,
            encrypted_key,
        ).wf(),
        ctx.patient_account.wf() ==> add_medical_record::counted(ctx.patient_account).wf(),
{
}

/// A record that was well formed is well formed after an accepted rotation.
pub proof fn lemma_rotated_record_is_well_formed(
    ctx: RotateRecordKeyView,
    new_ipfs_hash: Seq<char>,
    new_encrypted_key: Seq<char>,
)
    requires
        ctx.medical_record.wf(),
        rotate_record_key::refusal(ctx, new_ipfs_hash, new_encrypted_key) is None,
    ensures
        rotate_record_key::rotated(ctx.medical_record, new_ipfs_hash, new_encrypted_key).wf(),
{
}

/// A grant that an accepted request creates is well formed, if the record
/// is.
pub proof fn lemma_new_grant_is_well_formed(
    ctx: GrantAccessView,
    now: int,
    doctor: Address,
    duration_days: nat,
    encrypted_key_for_doctor: Seq<char>,
)
    requires
        i64::MIN <= now <= i64::MAX,
        ctx.medical_record.wf(),
        grant_access::refusal(ctx, now, duration_days, encrypted_key_for_doctor) is None,
    ensures
        grant_access::created(ctx, now, doctor, duration_days, encrypted_key_for_doctor).wf(),
{
}

/// A grant that was well formed is well formed after an accepted renewal,
/// if the record is.
pub proof fn lemma_renewed_grant_is_well_formed(
    ctx: UpdateDoctorKeyView,
    new_encrypted_key_for_doctor: Seq<char>,
)
    requires
        ctx.access_grant.wf(),
        ctx.medical_record.wf(),
        update_doctor_key::refusal(ctx, new_encrypted_key_for_doctor) is None,
    ensures
        update_doctor_key::renewed(
            ctx.access_grant,
            ctx.medical_record,
            new_encrypted_key_for_doctor,
        ).wf(),
{
}

} // verus!
