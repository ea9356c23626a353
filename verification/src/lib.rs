//! Delegated, time-bounded access to encrypted medical-record pointers.
//!
//! Patients own records. A doctor receives, per record, a grant that holds a
//! copy of the record's content key encrypted for that doctor. A grant can
//! expire, can be revoked, and goes stale when the record's key is rotated
//! until the patient renews the doctor's copy.
//!
//! Every operation is a function from the entities it touches, the current
//! time and its arguments to the changed entities and an event. Its contract
//! names the first check that refuses it, and states that a refused
//! operation changes nothing.

pub mod address;
pub mod constants;
pub mod error;
pub mod validation;
pub mod state;
pub mod events;
pub mod instructions;
pub mod guarantees;
