//! The typed failures of the engine.

use vstd::prelude::*;

verus! {

/// Why an encoded hash string was rejected by the parser.
#[derive(Clone, Copy, Debug, PartialEq, Eq, Structural)]
pub enum MalformedReason {
    /// The string is not exactly 60 bytes long, or a `$` separator is absent.
    WrongShape,
    /// The version token is not one of `2a`, `2b`, `2x`, `2y`.
    BadVersion,
    /// The cost field is not two digits, or the embedded cost is outside [4, 31].
    BadCost,
    /// A salt or digest character is outside the radix-64 alphabet.
    BadEncoding,
}

/// Every failure the engine can report.
#[derive(Clone, Copy, Debug, PartialEq, Eq, Structural)]
pub enum BcryptError {
    /// The requested cost is outside [4, 31].
    InvalidCost,
    /// A caller-supplied salt is not exactly 16 bytes.
    InvalidSaltLength,
    /// The secure randomness source failed; no salt could be drawn.
    RngFailure,
    /// A character outside the radix-64 alphabet was handed to the decoder.
    InvalidEncoding,
    /// An encoded hash string does not have the canonical shape.
    MalformedHash(MalformedReason),
}

impl BcryptError {
    /// A short human-readable description of the failure.
    pub fn describe(&self) -> (r: &'static str)
        ensures
            r@.len() > 0,
    {
        let s: &'static str = match self {
            BcryptError::InvalidCost => "cost is outside the accepted range",
            BcryptError::InvalidSaltLength => "salt is not exactly 16 bytes",
            BcryptError::RngFailure => "secure randomness source failed",
            BcryptError::InvalidEncoding => "character outside the radix-64 alphabet",
            BcryptError::MalformedHash(MalformedReason::WrongShape) => "hash string has the wrong shape",
            BcryptError::MalformedHash(MalformedReason::BadVersion) => "hash string has an unknown version",
            BcryptError::MalformedHash(MalformedReason::BadCost) => "hash string has a bad cost field",
            BcryptError::MalformedHash(MalformedReason::BadEncoding) => "hash string holds a character outside the radix-64 alphabet",
        };
        proof {
            reveal_strlit("cost is outside the accepted range");
            reveal_strlit("salt is not exactly 16 bytes");
            reveal_strlit("secure randomness source failed");
            reveal_strlit("character outside the radix-64 alphabet");
            reveal_strlit("hash string has the wrong shape");
            reveal_strlit("hash string has an unknown version");
            reveal_strlit("hash string has a bad cost field");
            reveal_strlit("hash string holds a character outside the radix-64 alphabet");
        }
        s
    }
}

} // verus!
