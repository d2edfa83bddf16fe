//! The hash string format.
//!
//! An encoded hash is exactly 60 bytes:
//! `$` + version token + `$` + two cost digits + `$` + 22 salt symbols +
//! 31 digest symbols. Parsing reports which structural check failed, and
//! only that: nothing of a failed comparison leaks through it.

use vstd::prelude::*;
use crate::codec::{
    encode_radix64, decode_radix64, radix64_valid, is_b64, encode, decode,
    lemma_radix64_round_trip,
};
use crate::errors::{BcryptError, MalformedReason};

verus! {

/// A hash scheme version token. The historical variants differ only in
/// how other implementations pre-processed password bytes; all are
/// accepted on parsing, and hashing always emits [`Version::TwoB`].
#[derive(Clone, Copy, Debug, PartialEq, Eq, Structural)]
pub enum Version {
    TwoA,
    TwoB,
    TwoX,
    TwoY,
}

/// The two bytes of a version token.
pub open spec fn version_bytes(v: Version) -> Seq<u8> {
    match v {
        Version::TwoA => seq![50u8, 97u8],
        Version::TwoB => seq![50u8, 98u8],
        Version::TwoX => seq![50u8, 120u8],
        Version::TwoY => seq![50u8, 121u8],
    }
}

/// Whether two bytes are a recognized version token.
pub open spec fn is_version(b1: u8, b2: u8) -> bool {
    b1 == 50 && (b2 == 97 || b2 == 98 || b2 == 120 || b2 == 121)
}

/// The version token read from two bytes.
pub open spec fn version_of(b2: u8) -> Version {
    if b2 == 97 {
        Version::TwoA
    } else if b2 == 98 {
        Version::TwoB
    } else if b2 == 120 {
        Version::TwoX
    } else {
        Version::TwoY
    }
}

/// Whether `c` is an ASCII digit.
pub open spec fn is_digit(c: u8) -> bool {
    48 <= c && c <= 57
}

/// The canonical 60-byte text of a version, cost, salt and digest.
pub open spec fn format_hash(v: Version, cost: u32, salt: Seq<u8>, digest: Seq<u8>) -> Seq<u8>
    recommends
        4 <= cost <= 31,
        salt.len() == 16,
        digest.len() == 23,
{
    seq![36u8] + version_bytes(v) + seq![
        36u8,
        (48 + cost / 10) as u8,
        (48 + cost % 10) as u8,
        36u8,
    ] + encode_radix64(salt) + encode_radix64(digest)
}

/// Why a 60-byte candidate is rejected, or `None` if it is well-formed.
/// The checks cascade: shape, then version, then cost, then the salt and
/// digest symbols.
pub open spec fn parse_reason(s: Seq<u8>) -> Option<MalformedReason> {
    if s.len() != 60 || s[0] != 36 || s[3] != 36 || s[6] != 36 {
        Some(MalformedReason::WrongShape)
    } else if !is_version(s[1], s[2]) {
        Some(MalformedReason::BadVersion)
    } else if !(is_digit(s[4]) && is_digit(s[5])) {
        Some(MalformedReason::BadCost)
    } else if spec_cost(s) < 4 || spec_cost(s) > 31 {
        Some(MalformedReason::BadCost)
    } else if !(radix64_valid(s.subrange(7, 29)) && radix64_valid(s.subrange(29, 60))) {
        Some(MalformedReason::BadEncoding)
    } else {
        None
    }
}

/// A well-formed encoded hash.
pub open spec fn parse_ok(s: Seq<u8>) -> bool {
    parse_reason(s) is None
}

/// The embedded cost of a well-shaped candidate.
pub open spec fn spec_cost(s: Seq<u8>) -> u32 {
    (10 * (s[4] - 48) + (s[5] - 48)) as u32
}

/// The embedded version of a well-formed hash.
pub open spec fn spec_version(s: Seq<u8>) -> Version {
    version_of(s[2])
}

/// The embedded salt bytes of a well-formed hash.
pub open spec fn spec_salt(s: Seq<u8>) -> Seq<u8> {
    decode_radix64(s.subrange(7, 29))
}

/// The embedded digest bytes of a well-formed hash.
pub open spec fn spec_digest(s: Seq<u8>) -> Seq<u8> {
    decode_radix64(s.subrange(29, 60))
}

/// The parts read out of a well-formed encoded hash.
pub struct ParsedHash {
    pub version: Version,
    pub cost: u32,
    pub salt: Vec<u8>,
    pub digest: Vec<u8>,
}

/// The number of bytes decoded from `n` symbols.
pub open spec fn decoded_len(n: nat) -> nat
    decreases n,
{
    if n < 2 {
        0
    } else if n == 2 {
        1
    } else if n == 3 {
        2
    } else {
        3 + decoded_len((n - 4) as nat)
    }
}

/// The number of symbols encoding `n` bytes.
pub open spec fn encoded_len(n: nat) -> nat
    decreases n,
{
    if n == 0 {
        0
    } else if n == 1 {
        2
    } else if n == 2 {
        3
    } else {
        4 + encoded_len((n - 3) as nat)
    }
}

/// Decoding turns `n` symbols into `decoded_len(n)` bytes.
pub proof fn lemma_decoded_len(s: Seq<u8>)
    ensures
        decode_radix64(s).len() == decoded_len(s.len()),
    decreases s.len(),
{
    if s.len() >= 4 {
        lemma_decoded_len(s.skip(4));
    }
}

/// Encoding turns `n` bytes into `encoded_len(n)` symbols.
pub proof fn lemma_encoded_len(bs: Seq<u8>)
    ensures
        encode_radix64(bs).len() == encoded_len(bs.len()),
    decreases bs.len(),
{
    if bs.len() >= 3 {
        lemma_encoded_len(bs.skip(3));
    }
}

/// A 16-byte salt encodes to 22 symbols and a 23-byte digest to 31.
pub proof fn lemma_field_lengths()
    ensures
        encoded_len(16) == 22,
        encoded_len(23) == 31,
        decoded_len(22) == 16,
        decoded_len(31) == 23,
{
    reveal_with_fuel(encoded_len, 9);
    reveal_with_fuel(decoded_len, 9);
}

/// Serializes a hash into its canonical 60 bytes, all of them ASCII.
pub fn format(version: Version, cost: u32, salt: &[u8], digest: &[u8]) -> (r: Vec<u8>)
    requires
        4 <= cost <= 31,
        salt@.len() == 16,
        digest@.len() == 23,
    ensures
        r@ == format_hash(version, cost, salt@, digest@),
        r@.len() == 60,
        forall|i: int| 0 <= i < r@.len() ==> r@[i] < 128,
{
    let mut r: Vec<u8> = Vec::new();
    r.push(36);
    match version {
        Version::TwoA => {
            r.push(50);
            r.push(97);
        },
        Version::TwoB => {
            r.push(50);
            r.push(98);
        },
        Version::TwoX => {
            r.push(50);
            r.push(120);
        },
        Version::TwoY => {
            r.push(50);
            r.push(121);
        },
    }
    r.push(36);
    r.push(48 + (cost / 10) as u8);
    r.push(48 + (cost % 10) as u8);
    r.push(36);
    let mut salt_syms = encode(salt);
    let mut digest_syms = encode(digest);
    proof {
        lemma_radix64_round_trip(salt@);
        lemma_radix64_round_trip(digest@);
        lemma_encoded_len(salt@);
        lemma_encoded_len(digest@);
        lemma_field_lengths();
    }
    r.append(&mut salt_syms);
    r.append(&mut digest_syms);
    proof {
        assert(r@ =~= format_hash(version, cost, salt@, digest@));
        assert forall|i: int| 0 <= i < r@.len() implies r@[i] < 128 by {
            if 7 <= i < 29 {
                assert(is_b64(encode_radix64(salt@)[i - 7]));
            } else if 29 <= i < 60 {
                assert(is_b64(encode_radix64(digest@)[i - 29]));
            }
        }
    }
    r
}

/// Parses a 60-byte candidate into its parts, or reports the first
/// structural check that failed.
pub fn parse(s: &[u8]) -> (r: Result<ParsedHash, BcryptError>)
    ensures
        parse_ok(s@) ==> (r matches Ok(ph) && ph.version == spec_version(s@) && ph.cost
            == spec_cost(s@) && 4 <= ph.cost <= 31 && ph.salt@ == spec_salt(s@) && ph.salt@.len()
            == 16 && ph.digest@ == spec_digest(s@) && ph.digest@.len() == 23),
        !parse_ok(s@) ==> r == Result::<ParsedHash, BcryptError>::Err(
            BcryptError::MalformedHash(parse_reason(s@).unwrap()),
        ),
{
    if s.len() != 60 {
        return Err(BcryptError::MalformedHash(MalformedReason::WrongShape));
    }
    if s[0] != 36 || s[3] != 36 || s[6] != 36 {
        return Err(BcryptError::MalformedHash(MalformedReason::WrongShape));
    }
    if s[1] != 50 {
        return Err(BcryptError::MalformedHash(MalformedReason::BadVersion));
    }
    let version = if s[2] == 97 {
        Version::TwoA
    } else if s[2] == 98 {
        Version::TwoB
    } else if s[2] == 120 {
        Version::TwoX
    } else if s[2] == 121 {
        Version::TwoY
    } else {
        return Err(BcryptError::MalformedHash(MalformedReason::BadVersion));
    };
    let d1 = s[4];
    let d2 = s[5];
    if !(48 <= d1 && d1 <= 57 && 48 <= d2 && d2 <= 57) {
        return Err(BcryptError::MalformedHash(MalformedReason::BadCost));
    }
    let cost: u32 = 10 * ((d1 - 48) as u32) + ((d2 - 48) as u32);
    if cost < 4 || cost > 31 {
        return Err(BcryptError::MalformedHash(MalformedReason::BadCost));
    }
    let salt_syms = vstd::slice::slice_subrange(s, 7, 29);
    let digest_syms = vstd::slice::slice_subrange(s, 29, 60);
    let salt = match decode(salt_syms) {
        Ok(v) => v,
        Err(_) => {
            return Err(BcryptError::MalformedHash(MalformedReason::BadEncoding));
        },
    };
    let digest = match decode(digest_syms) {
        Ok(v) => v,
        Err(_) => {
            return Err(BcryptError::MalformedHash(MalformedReason::BadEncoding));
        },
    };
    proof {
        lemma_decoded_len(salt_syms@);
        lemma_decoded_len(digest_syms@);
        lemma_field_lengths();
    }
    Ok(ParsedHash { version, cost, salt, digest })
}

} // verus!
