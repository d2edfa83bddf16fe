//! The hash engine.
//!
//! `hash` draws a fresh 16-byte salt from the operating system's secure
//! randomness, derives the digest and serializes the canonical string;
//! `hash_with_salt` does the same for a caller-supplied salt, and is a
//! mathematical function of its inputs. `verify` parses an encoded hash,
//! re-derives the digest from the supplied password and the embedded salt
//! and cost, and compares digests in constant time: a parse failure is an
//! error, never `false`.

use vstd::prelude::*;
use vstd::string::StringSliceAdditionalSpecFns;
use vstd::utf8::{encode_utf8, is_ascii_chars, is_ascii_chars_encode_utf8};
use crate::cipher::{password_digest, compute_digest};
use crate::{MIN_COST, MAX_COST};
use crate::errors::BcryptError;
use crate::format::{
    Version, format_hash, parse, parse_ok, parse_reason, spec_cost, spec_salt,
    spec_digest, lemma_encoded_len, lemma_field_lengths,
};
use crate::codec::{encode_radix64, lemma_radix64_round_trip};

verus! {

/// The characters of a sequence of ASCII bytes.
pub open spec fn ascii_chars(bs: Seq<u8>) -> Seq<char> {
    Seq::new(bs.len(), |i: int| bs[i] as char)
}

/// The 60 bytes of the hash string produced for a password, cost and
/// salt: always the `2b` token, the digest derived by the key schedule.
pub open spec fn hash_string(pw: Seq<u8>, cost: u32, salt: Seq<u8>) -> Seq<u8>
    recommends
        4 <= cost <= 31,
        salt.len() == 16,
{
    format_hash(Version::TwoB, cost, salt, password_digest(pw, salt, cost))
}

/// What `verify` returns for a password and the bytes of an encoded
/// hash: the parse failure if the bytes are not well-formed, else whether
/// the re-derived digest equals the embedded one.
pub open spec fn verify_outcome(pw: Seq<u8>, s: Seq<u8>) -> Result<bool, BcryptError> {
    if parse_ok(s) {
        Ok(password_digest(pw, spec_salt(s), spec_cost(s)) == spec_digest(s))
    } else {
        Err(BcryptError::MalformedHash(parse_reason(s).unwrap()))
    }
}

/// `h` is the hash string of `pw` under some 16-byte salt.
pub open spec fn is_hash_for(h: Seq<char>, pw: Seq<u8>, cost: u32, salt: Seq<u8>) -> bool {
    salt.len() == 16 && h == ascii_chars(hash_string(pw, cost, salt))
}

/// Relies on `getrandom::fill`: on success the buffer holds
/// cryptographically secure random bytes from the operating system; on
/// failure nothing is drawn. Nothing is assumed of the bytes themselves.
#[verifier::external_body]
fn random_salt() -> (r: Option<Vec<u8>>)
    ensures
        r matches Some(v) ==> v@.len() == 16,
{
    let mut buf = [0u8; 16];
    match getrandom::fill(&mut buf) {
        Ok(()) => Some(buf.to_vec()),
        Err(_) => None,
    }
}

/// Relies on `String::from_utf8`: bytes below 128 are valid UTF-8 and
/// decode to one `char` each, with the same code points.
#[verifier::external_body]
fn ascii_string(v: Vec<u8>) -> (r: String)
    requires
        forall|i: int| 0 <= i < v@.len() ==> v@[i] < 128,
    ensures
        r@.len() == v@.len(),
        forall|i: int| 0 <= i < r@.len() ==> r@[i] == (v@[i] as char),
{
    String::from_utf8(v).unwrap_or_default()
}

/// Or and xor land on zero exactly when their operands do.
proof fn lemma_zero_bits(x: u8, y: u8)
    by (bit_vector)
    ensures
        ((x | y) == 0) == (x == 0 && y == 0),
        ((x ^ y) == 0) == (x == y),
{
}

/// Constant-time equality of two byte strings of one length: a
/// fixed-iteration xor-and-accumulate with no data-dependent branch, so
/// its operations do not depend on where the inputs first differ.
pub fn ct_eq(a: &[u8], b: &[u8]) -> (r: bool)
    requires
        a@.len() == b@.len(),
    ensures
        r == (a@ == b@),
{
    let len = a.len();
    let mut acc: u8 = 0;
    let mut i: usize = 0;
    proof {
        assert(a@.take(0) =~= b@.take(0));
    }
    while i < len
        invariant
            a@.len() == b@.len(),
            len == a@.len(),
            i <= len,
            (acc == 0) <==> a@.take(i as int) == b@.take(i as int),
        decreases len - i,
    {
        let ghost acc0 = acc;
        acc = acc | (a[i] ^ b[i]);
        proof {
            lemma_zero_bits(acc0, a@[i as int] ^ b@[i as int]);
            lemma_zero_bits(a@[i as int], b@[i as int]);
            assert(a@.take(i + 1) =~= a@.take(i as int).push(a@[i as int]));
            assert(b@.take(i + 1) =~= b@.take(i as int).push(b@[i as int]));
            if a@.take(i + 1) == b@.take(i + 1) {
                assert(a@.take(i as int) =~= a@.take(i + 1).take(i as int));
                assert(b@.take(i as int) =~= b@.take(i + 1).take(i as int));
                assert(a@[i as int] == a@.take(i + 1)[i as int]);
            }
        }
        i = i + 1;
    }
    proof {
        assert(a@.take(len as int) =~= a@);
        assert(b@.take(len as int) =~= b@);
    }
    acc == 0
}

/// Hashes a password with a caller-supplied salt: the digest and the
/// encoded string are a function of password bytes, salt and cost alone,
/// so repeated calls are bit-identical.
pub fn hash_with_salt(password: &[u8], cost: u32, salt: &[u8]) -> (r: Result<
    String,
    BcryptError,
>)
    ensures
        (cost < 4 || cost > 31) ==> r == Result::<String, BcryptError>::Err(
            BcryptError::InvalidCost,
        ),
        (4 <= cost <= 31 && salt@.len() != 16) ==> r == Result::<String, BcryptError>::Err(
            BcryptError::InvalidSaltLength,
        ),
        (4 <= cost <= 31 && salt@.len() == 16) ==> (r matches Ok(h) && h@ == ascii_chars(
            hash_string(password@, cost, salt@),
        ) && h@.len() == 60 && encode_utf8(h@) == hash_string(password@, cost, salt@)),
{
    if cost < MIN_COST || cost > MAX_COST {
        return Err(BcryptError::InvalidCost);
    }
    if salt.len() != 16 {
        return Err(BcryptError::InvalidSaltLength);
    }
    let digest = compute_digest(password, salt, cost);
    let bytes = crate::format::format(Version::TwoB, cost, salt, digest.as_slice());
    let ghost bs = bytes@;
    let h = ascii_string(bytes);
    proof {
        assert(h@ =~= ascii_chars(hash_string(password@, cost, salt@)));
        assert(is_ascii_chars(h@)) by {
            assert forall|i: int| 0 <= i < h@.len() implies '\0' <= #[trigger] h@[i]
                <= '\u{7f}' by {
                assert(h@[i] == (bs[i] as char));
                assert(bs[i] < 128);
            }
        }
        is_ascii_chars_encode_utf8(h@);
        assert(encode_utf8(h@) =~= hash_string(password@, cost, salt@));
    }
    Ok(h)
}

/// Hashes a password under a fresh random salt. An out-of-range cost is
/// rejected before any work; if secure randomness is unavailable the call
/// fails rather than fall back to a weaker source; otherwise the result
/// is the hash string of the password under some 16-byte salt.
pub fn hash(password: &[u8], cost: u32) -> (r: Result<String, BcryptError>)
    ensures
        (cost < 4 || cost > 31) ==> r == Result::<String, BcryptError>::Err(
            BcryptError::InvalidCost,
        ),
        (4 <= cost <= 31) ==> match r {
            Ok(h) => exists|salt: Seq<u8>| is_hash_for(h@, password@, cost, salt),
            Err(e) => e == BcryptError::RngFailure,
        },
{
    if cost < MIN_COST || cost > MAX_COST {
        return Err(BcryptError::InvalidCost);
    }
    let salt = match random_salt() {
        Some(s) => s,
        None => {
            return Err(BcryptError::RngFailure);
        },
    };
    let r = hash_with_salt(password, cost, salt.as_slice());
    match r {
        Ok(h) => {
            proof {
                assert(is_hash_for(h@, password@, cost, salt@));
            }
            Ok(h)
        },
        Err(e) => {
            // unreachable: the cost is in range and the salt has 16 bytes
            proof {
                assert(false);
            }
            Err(e)
        },
    }
}

/// Verifies a password against an encoded hash: the digest re-derived
/// with the embedded salt and cost is compared to the embedded digest in
/// constant time. A malformed string is an error, distinct from `false`.
pub fn verify(password: &[u8], encoded: &str) -> (r: Result<bool, BcryptError>)
    ensures
        r == verify_outcome(password@, encoded.spec_bytes()),
{
    let bytes = encoded.as_bytes();
    let parts = match parse(bytes) {
        Ok(p) => p,
        Err(e) => {
            return Err(e);
        },
    };
    let digest = compute_digest(password, parts.salt.as_slice(), parts.cost);
    let same = ct_eq(digest.as_slice(), parts.digest.as_slice());
    Ok(same)
}

/// Serializing and re-parsing a well-formed hash gives its parts back.
pub proof fn lemma_format_parse(v: Version, cost: u32, salt: Seq<u8>, digest: Seq<u8>)
    requires
        4 <= cost <= 31,
        salt.len() == 16,
        digest.len() == 23,
    ensures
        parse_ok(format_hash(v, cost, salt, digest)),
        spec_cost(format_hash(v, cost, salt, digest)) == cost,
        spec_salt(format_hash(v, cost, salt, digest)) == salt,
        spec_digest(format_hash(v, cost, salt, digest)) == digest,
{
    let f = format_hash(v, cost, salt, digest);
    let es = encode_radix64(salt);
    let ed = encode_radix64(digest);
    lemma_radix64_round_trip(salt);
    lemma_radix64_round_trip(digest);
    lemma_encoded_len(salt);
    lemma_encoded_len(digest);
    lemma_field_lengths();
    assert(f.len() == 60);
    assert(f.subrange(7, 29) =~= es);
    assert(f.subrange(29, 60) =~= ed);
    assert(f[4] == 48 + cost / 10 && f[5] == 48 + cost % 10);
    assert(spec_cost(f) == 10 * (cost / 10) + cost % 10);
    assert(10 * (cost / 10) + cost % 10 == cost) by (nonlinear_arith);
}

/// Round trip: the hash string of a password verifies against that
/// password, whatever the salt.
pub proof fn lemma_verify_of_hash(pw: Seq<u8>, cost: u32, salt: Seq<u8>)
    requires
        4 <= cost <= 31,
        salt.len() == 16,
    ensures
        verify_outcome(pw, hash_string(pw, cost, salt)) == Result::<bool, BcryptError>::Ok(true),
{
    assert(password_digest(pw, salt, cost).len() == 23);
    lemma_format_parse(Version::TwoB, cost, salt, password_digest(pw, salt, cost));
}

/// The truncation quirk: passwords of at least 72 bytes that agree on
/// their first 72 bytes share the cipher key, and with it every digest
/// and every hash string.
pub proof fn lemma_truncation_quirk(p1: Seq<u8>, p2: Seq<u8>, cost: u32, salt: Seq<u8>)
    requires
        p1.len() >= 72,
        p2.len() >= 72,
        p1.take(72) == p2.take(72),
    ensures
        hash_string(p1, cost, salt) == hash_string(p2, cost, salt),
{
    assert(crate::cipher::bcrypt_key(p1) == crate::cipher::bcrypt_key(p2));
}

} // verus!
