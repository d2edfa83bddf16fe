//! The bcrypt radix-64 codec.
//!
//! Salts and digests are encoded with bcrypt's own 64-symbol alphabet
//! `./A-Za-z0-9`, which orders its symbols differently from standard
//! base64 and never uses a padding character: groups of 3 bytes become 4
//! symbols, a trailing byte becomes 2 and a trailing pair becomes 3.

use vstd::prelude::*;
use crate::errors::BcryptError;

verus! {

/// Whether `c` is a byte of the radix-64 alphabet.
pub open spec fn is_b64(c: u8) -> bool {
    c == 46 || c == 47 || (65 <= c && c <= 90) || (97 <= c && c <= 122) || (48 <= c && c <= 57)
}

/// The alphabet byte of a 6-bit value: `.`, `/`, the upper-case letters,
/// the lower-case letters, then the digits.
pub open spec fn b64_byte(v: u8) -> u8
    recommends
        v < 64,
{
    if v == 0 {
        46
    } else if v == 1 {
        47
    } else if v < 28 {
        (v + 63) as u8
    } else if v < 54 {
        (v + 69) as u8
    } else {
        (v - 6) as u8
    }
}

/// The 6-bit value of an alphabet byte.
pub open spec fn b64_value(c: u8) -> u8
    recommends
        is_b64(c),
{
    if c == 46 {
        0
    } else if c == 47 {
        1
    } else if 65 <= c && c <= 90 {
        (c - 63) as u8
    } else if 97 <= c && c <= 122 {
        (c - 69) as u8
    } else {
        (c + 6) as u8
    }
}

/// The radix-64 encoding of a byte sequence, 3 bytes to 4 symbols,
/// bits packed most significant first.
pub open spec fn encode_radix64(bs: Seq<u8>) -> Seq<u8>
    decreases bs.len(),
{
    if bs.len() == 0 {
        seq![]
    } else if bs.len() == 1 {
        let b0 = bs[0];
        seq![b64_byte(b0 >> 2), b64_byte((b0 & 3) << 4)]
    } else if bs.len() == 2 {
        let b0 = bs[0];
        let b1 = bs[1];
        seq![
            b64_byte(b0 >> 2),
            b64_byte(((b0 & 3) << 4) | (b1 >> 4)),
            b64_byte((b1 & 15) << 2),
        ]
    } else {
        let b0 = bs[0];
        let b1 = bs[1];
        let b2 = bs[2];
        seq![
            b64_byte(b0 >> 2),
            b64_byte(((b0 & 3) << 4) | (b1 >> 4)),
            b64_byte(((b1 & 15) << 2) | (b2 >> 6)),
            b64_byte(b2 & 63),
        ] + encode_radix64(bs.skip(3))
    }
}

/// Whether a symbol sequence can be decoded: every byte is in the
/// alphabet, and a single trailing symbol (which would carry at most six
/// bits) cannot occur.
pub open spec fn radix64_valid(s: Seq<u8>) -> bool {
    s.len() % 4 != 1 && (forall|i: int| 0 <= i < s.len() ==> is_b64(#[trigger] s[i]))
}

/// The bytes decoded from a symbol sequence, 4 symbols to 3 bytes; the
/// spare low bits of a trailing group are dropped.
pub open spec fn decode_radix64(s: Seq<u8>) -> Seq<u8>
    recommends
        radix64_valid(s),
    decreases s.len(),
{
    if s.len() < 2 {
        seq![]
    } else if s.len() == 2 {
        let v0 = b64_value(s[0]);
        let v1 = b64_value(s[1]);
        seq![((v0 << 2) | (v1 >> 4)) as u8]
    } else if s.len() == 3 {
        let v0 = b64_value(s[0]);
        let v1 = b64_value(s[1]);
        let v2 = b64_value(s[2]);
        seq![((v0 << 2) | (v1 >> 4)) as u8, (((v1 & 15) << 4) | (v2 >> 2)) as u8]
    } else {
        let v0 = b64_value(s[0]);
        let v1 = b64_value(s[1]);
        let v2 = b64_value(s[2]);
        let v3 = b64_value(s[3]);
        seq![
            ((v0 << 2) | (v1 >> 4)) as u8,
            (((v1 & 15) << 4) | (v2 >> 2)) as u8,
            (((v2 & 3) << 6) | v3) as u8,
        ] + decode_radix64(s.skip(4))
    }
}

/// The alphabet byte of a 6-bit value is in the alphabet, is ASCII, and
/// decodes back to the value.
pub proof fn lemma_b64_byte(v: u8)
    requires
        v < 64,
    ensures
        is_b64(b64_byte(v)),
        b64_byte(v) < 128,
        b64_value(b64_byte(v)) == v,
{
}

/// The bit-packing of one byte into two symbols inverts.
proof fn lemma_pack_1(b0: u8)
    by (bit_vector)
    ensures
        (b0 >> 2) < 64,
        ((b0 & 3) << 4) < 64,
        (((b0 >> 2) << 2) | (((b0 & 3) << 4) >> 4)) == b0,
{
}

/// The bit-packing of two bytes into three symbols inverts.
proof fn lemma_pack_2(b0: u8, b1: u8)
    by (bit_vector)
    ensures
        (((b0 & 3) << 4) | (b1 >> 4)) < 64,
        ((b1 & 15) << 2) < 64,
        (((b0 >> 2) << 2) | ((((b0 & 3) << 4) | (b1 >> 4)) >> 4)) == b0,
        ((((((b0 & 3) << 4) | (b1 >> 4)) & 15) << 4) | (((b1 & 15) << 2) >> 2)) == b1,
{
}

/// The bit-packing of three bytes into four symbols inverts.
proof fn lemma_pack_3(b0: u8, b1: u8, b2: u8)
    by (bit_vector)
    ensures
        (((b0 & 3) << 4) | (b1 >> 4)) < 64,
        (((b1 & 15) << 2) | (b2 >> 6)) < 64,
        (b2 & 63) < 64,
        (((b0 >> 2) << 2) | ((((b0 & 3) << 4) | (b1 >> 4)) >> 4)) == b0,
        ((((((b0 & 3) << 4) | (b1 >> 4)) & 15) << 4) | (((((b1 & 15) << 2) | (b2 >> 6))) >> 2))
            == b1,
        ((((((b1 & 15) << 2) | (b2 >> 6)) & 3) << 6) | (b2 & 63)) == b2,
{
}

/// Round trip: decoding an encoding gives the bytes back, and every
/// encoding is a valid symbol sequence.
pub proof fn lemma_radix64_round_trip(bs: Seq<u8>)
    ensures
        radix64_valid(encode_radix64(bs)),
        decode_radix64(encode_radix64(bs)) == bs,
    decreases bs.len(),
{
    let e = encode_radix64(bs);
    if bs.len() == 0 {
        assert(decode_radix64(e) =~= bs);
    } else if bs.len() == 1 {
        let b0 = bs[0];
        lemma_pack_1(b0);
        lemma_b64_byte(b0 >> 2);
        lemma_b64_byte((b0 & 3) << 4);
        assert(decode_radix64(e) =~= bs);
    } else if bs.len() == 2 {
        let b0 = bs[0];
        let b1 = bs[1];
        lemma_pack_2(b0, b1);
        lemma_pack_1(b0);
        lemma_b64_byte(b0 >> 2);
        lemma_b64_byte(((b0 & 3) << 4) | (b1 >> 4));
        lemma_b64_byte((b1 & 15) << 2);
        assert(decode_radix64(e) =~= bs);
    } else {
        let b0 = bs[0];
        let b1 = bs[1];
        let b2 = bs[2];
        lemma_pack_3(b0, b1, b2);
        lemma_pack_1(b0);
        lemma_b64_byte(b0 >> 2);
        lemma_b64_byte(((b0 & 3) << 4) | (b1 >> 4));
        lemma_b64_byte(((b1 & 15) << 2) | (b2 >> 6));
        lemma_b64_byte(b2 & 63);
        lemma_radix64_round_trip(bs.skip(3));
        let rest = encode_radix64(bs.skip(3));
        assert(e.skip(4) =~= rest);
        assert(radix64_valid(e)) by {
            assert(e.len() % 4 == rest.len() % 4) by {
                assert(e.len() == rest.len() + 4);
            }
            assert(forall|i: int| 0 <= i < e.len() ==> is_b64(#[trigger] e[i])) by {
                assert(forall|i: int| 4 <= i < e.len() ==> e[i] == rest[i - 4]);
            }
        }
        assert(decode_radix64(e) =~= bs) by {
            assert(decode_radix64(e).skip(3) =~= decode_radix64(e.skip(4)));
            assert(decode_radix64(e) =~= seq![b0, b1, b2] + decode_radix64(e.skip(4)));
            assert(bs =~= seq![b0, b1, b2] + bs.skip(3));
        }
    }
}

/// The alphabet byte of a 6-bit value.
fn encode_byte(v: u8) -> (c: u8)
    requires
        v < 64,
    ensures
        c == b64_byte(v),
{
    if v == 0 {
        46
    } else if v == 1 {
        47
    } else if v < 28 {
        v + 63
    } else if v < 54 {
        v + 69
    } else {
        v - 6
    }
}

/// The 6-bit value of an alphabet byte, or `None` outside the alphabet.
fn decode_byte(c: u8) -> (r: Option<u8>)
    ensures
        r is Some <==> is_b64(c),
        r matches Some(v) ==> v == b64_value(c) && v < 64,
{
    if c == 46 {
        Some(0)
    } else if c == 47 {
        Some(1)
    } else if 65 <= c && c <= 90 {
        Some(c - 63)
    } else if 97 <= c && c <= 122 {
        Some(c - 69)
    } else if 48 <= c && c <= 57 {
        Some(c + 6)
    } else {
        None
    }
}

/// Encodes bytes into radix-64 symbols.
pub fn encode(bytes: &[u8]) -> (r: Vec<u8>)
    ensures
        r@ == encode_radix64(bytes@),
{
    let len = bytes.len();
    let mut r: Vec<u8> = Vec::new();
    let mut i: usize = 0;
    proof {
        assert(bytes@.skip(0) =~= bytes@);
        assert(r@ + encode_radix64(bytes@) =~= encode_radix64(bytes@));
    }
    while len - i >= 3
        invariant
            i <= len,
            len == bytes@.len(),
            encode_radix64(bytes@) == r@ + encode_radix64(bytes@.skip(i as int)),
        decreases len - i,
    {
        let b0 = bytes[i];
        let b1 = bytes[i + 1];
        let b2 = bytes[i + 2];
        proof {
            lemma_pack_3(b0, b1, b2);
            lemma_pack_1(b0);
        }
        r.push(encode_byte(b0 >> 2));
        r.push(encode_byte(((b0 & 3) << 4) | (b1 >> 4)));
        r.push(encode_byte(((b1 & 15) << 2) | (b2 >> 6)));
        r.push(encode_byte(b2 & 63));
        proof {
            assert(bytes@.skip(i as int).skip(3) =~= bytes@.skip(i + 3));
        }
        i = i + 3;
    }
    if len - i == 1 {
        let b0 = bytes[i];
        proof {
            lemma_pack_1(b0);
        }
        r.push(encode_byte(b0 >> 2));
        r.push(encode_byte((b0 & 3) << 4));
    } else if len - i == 2 {
        let b0 = bytes[i];
        let b1 = bytes[i + 1];
        proof {
            lemma_pack_2(b0, b1);
            lemma_pack_1(b0);
        }
        r.push(encode_byte(b0 >> 2));
        r.push(encode_byte(((b0 & 3) << 4) | (b1 >> 4)));
        r.push(encode_byte((b1 & 15) << 2));
    }
    proof {
        assert(r@ =~= encode_radix64(bytes@));
    }
    r
}

/// Decodes radix-64 symbols into bytes; a byte outside the alphabet, or a
/// length leaving a single trailing symbol, is an encoding error.
pub fn decode(s: &[u8]) -> (r: Result<Vec<u8>, BcryptError>)
    ensures
        radix64_valid(s@) ==> (r matches Ok(v) && v@ == decode_radix64(s@)),
        !radix64_valid(s@) ==> r == Result::<Vec<u8>, BcryptError>::Err(
            BcryptError::InvalidEncoding,
        ),
{
    let len = s.len();
    if len % 4 == 1 {
        return Err(BcryptError::InvalidEncoding);
    }
    let mut out: Vec<u8> = Vec::new();
    let mut i: usize = 0;
    proof {
        assert(s@.skip(0) =~= s@);
        assert(out@ + decode_radix64(s@) =~= decode_radix64(s@));
    }
    while len - i >= 4
        invariant
            i <= len,
            len == s@.len(),
            len % 4 != 1,
            i % 4 == 0,
            forall|j: int| 0 <= j < i ==> is_b64(#[trigger] s@[j]),
            radix64_valid(s@) ==> out@ + decode_radix64(s@.skip(i as int)) == decode_radix64(
                s@,
            ),
        decreases len - i,
    {
        let v0 = match decode_byte(s[i]) {
            Some(v) => v,
            None => { return Err(BcryptError::InvalidEncoding); },
        };
        let v1 = match decode_byte(s[i + 1]) {
            Some(v) => v,
            None => { return Err(BcryptError::InvalidEncoding); },
        };
        let v2 = match decode_byte(s[i + 2]) {
            Some(v) => v,
            None => { return Err(BcryptError::InvalidEncoding); },
        };
        let v3 = match decode_byte(s[i + 3]) {
            Some(v) => v,
            None => { return Err(BcryptError::InvalidEncoding); },
        };
        out.push((v0 << 2) | (v1 >> 4));
        out.push(((v1 & 15) << 4) | (v2 >> 2));
        out.push(((v2 & 3) << 6) | v3);
        proof {
            assert(s@.skip(i as int).skip(4) =~= s@.skip(i + 4));
        }
        i = i + 4;
    }
    if len - i == 1 {
        // cannot happen: the length is not 1 modulo 4
        proof {
            assert(len % 4 == 1) by (nonlinear_arith)
                requires
                    i % 4 == 0,
                    len == i + 1,
            ;
        }
        return Err(BcryptError::InvalidEncoding);
    } else if len - i == 2 {
        let v0 = match decode_byte(s[i]) {
            Some(v) => v,
            None => { return Err(BcryptError::InvalidEncoding); },
        };
        let v1 = match decode_byte(s[i + 1]) {
            Some(v) => v,
            None => { return Err(BcryptError::InvalidEncoding); },
        };
        out.push((v0 << 2) | (v1 >> 4));
    } else if len - i == 3 {
        let v0 = match decode_byte(s[i]) {
            Some(v) => v,
            None => { return Err(BcryptError::InvalidEncoding); },
        };
        let v1 = match decode_byte(s[i + 1]) {
            Some(v) => v,
            None => { return Err(BcryptError::InvalidEncoding); },
        };
        let v2 = match decode_byte(s[i + 2]) {
            Some(v) => v,
            None => { return Err(BcryptError::InvalidEncoding); },
        };
        out.push((v0 << 2) | (v1 >> 4));
        out.push(((v1 & 15) << 4) | (v2 >> 2));
    }
    proof {
        assert(radix64_valid(s@));
        assert(out@ =~= decode_radix64(s@));
    }
    Ok(out)
}

} // verus!
