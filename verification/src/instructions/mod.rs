//! The operations, one module each. A module holds the entities that its
//! operation touches, the operation's meaning as functions on views, and
//! the operation itself under the name `handler`.

pub mod add_medical_record;
pub mod grant_access;
pub mod initialize_doctor;
pub mod initialize_patient;
pub mod rotate_record_key;
pub mod update_doctor_key;
pub mod revoke_access;
pub mod verify_doctor;
