//! Fixed capacities and conventions shared by every operation.
//!
//! Storage for each entity is allocated once, so every text field has a hard
//! upper bound on its encoded length in bytes.

use vstd::prelude::*;

verus! {

/// Longest name of a patient or a doctor, in bytes.
pub const MAX_NAME_LENGTH: usize = 50;

/// Longest record type, in bytes.
pub const MAX_RECORD_TYPE_LENGTH: usize = 20;

/// Longest record description, in bytes.
pub const MAX_DESCRIPTION_LENGTH: usize = 200;

/// Longest content locator, in bytes.
pub const IPFS_HASH_LENGTH: usize = 46;

/// Longest encrypted key blob, in bytes.
pub const ENCRYPTED_KEY_LENGTH: usize = 128;

/// Longest specialization of a doctor, in bytes.
pub const MAX_SPECIALIZATION_LENGTH: usize = 50;

/// Longest license identifier of a doctor, in bytes.
pub const MAX_LICENSE_ID_LENGTH: usize = 30;

/// Seconds in one day of a grant's duration.
pub const SECONDS_PER_DAY: u64 = 86400;

/// The expiry that stands for "never expires".
pub const NEVER_EXPIRES: i64 = 0x7fff_ffff_ffff_ffff;

/// The key version of a record that was never rotated.
pub const INITIAL_KEY_VERSION: u64 = 0;

/// Bytes in front of every stored entity that tell its kind.
pub const DISCRIMINATOR_LENGTH: usize = 8;

/// Bytes of an address.
pub const ADDRESS_LENGTH: usize = 32;

/// Bytes in front of a stored text that hold its length.
pub const LENGTH_PREFIX: usize = 4;

} // verus!
