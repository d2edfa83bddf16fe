//! A bcrypt password-hashing engine: the EksBlowfish key schedule, the
//! digest generator, the radix-64 codec and the `$2b$`-style hash string
//! format, with machine-checked contracts for hashing and verification.

pub mod errors;
pub mod tables;
pub mod cipher;
pub mod codec;
pub mod format;
pub mod engine;

pub use crate::engine::{hash, hash_with_salt, verify};
pub use crate::errors::BcryptError;

use vstd::prelude::*;

verus! {

/// The work factor used when a caller does not choose one.
pub const DEFAULT_COST: u32 = 12;

/// The smallest accepted work factor.
pub const MIN_COST: u32 = 4;

/// The largest accepted work factor.
pub const MAX_COST: u32 = 31;

} // verus!
