//! End-to-end behaviour of the hash engine.

use bcrypt_engine::engine::{hash, hash_with_salt, verify};
use bcrypt_engine::errors::{BcryptError, MalformedReason};

const SALT: [u8; 16] = [7, 1, 2, 3, 4, 5, 6, 7, 8, 9, 10, 11, 12, 13, 14, 15];

#[test]
fn round_trip_accepts_the_password() {
    for cost in [4u32, 5, 6] {
        let h = hash(b"correct horse battery staple", cost).unwrap();
        assert_eq!(verify(b"correct horse battery staple", &h), Ok(true));
    }
}

#[test]
fn wrong_password_is_rejected() {
    let h = hash(b"left", 4).unwrap();
    assert_eq!(verify(b"right", &h), Ok(false));
    let h2 = hash(b"", 4).unwrap();
    assert_eq!(verify(b"anything", &h2), Ok(false));
}

#[test]
fn empty_password_round_trips() {
    let h = hash(b"", 4).unwrap();
    assert_eq!(verify(b"", &h), Ok(true));
}

#[test]
fn same_salt_same_cost_is_bit_identical() {
    let a = hash_with_salt(b"determinism", 5, &SALT).unwrap();
    let b = hash_with_salt(b"determinism", 5, &SALT).unwrap();
    assert_eq!(a, b);
}

#[test]
fn fresh_salts_differ() {
    let a = hash(b"same password", 4).unwrap();
    let b = hash(b"same password", 4).unwrap();
    assert_ne!(a, b);
    assert_eq!(verify(b"same password", &a), Ok(true));
    assert_eq!(verify(b"same password", &b), Ok(true));
}

#[test]
fn bytes_after_the_72nd_do_not_matter() {
    let mut p1 = vec![b'x'; 72];
    let mut p2 = vec![b'x'; 72];
    p1.extend_from_slice(b"tail one");
    p2.extend_from_slice(b"a completely different tail");
    let h1 = hash_with_salt(&p1, 4, &SALT).unwrap();
    let h2 = hash_with_salt(&p2, 4, &SALT).unwrap();
    assert_eq!(h1, h2);
    assert_eq!(verify(&p2, &h1), Ok(true));
}

#[test]
fn byte_72_still_matters() {
    let mut p1 = vec![b'x'; 71];
    let mut p2 = vec![b'x'; 71];
    p1.push(b'a');
    p2.push(b'b');
    let h1 = hash_with_salt(&p1, 4, &SALT).unwrap();
    assert_eq!(verify(&p2, &h1), Ok(false));
}

#[test]
fn out_of_range_costs_are_invalid() {
    assert_eq!(hash(b"p", 3), Err(BcryptError::InvalidCost));
    assert_eq!(hash(b"p", 32), Err(BcryptError::InvalidCost));
    assert_eq!(hash(b"p", 0), Err(BcryptError::InvalidCost));
    assert_eq!(hash(b"p", u32::MAX), Err(BcryptError::InvalidCost));
    assert_eq!(
        hash_with_salt(b"p", 3, &SALT),
        Err(BcryptError::InvalidCost)
    );
    assert_eq!(
        hash_with_salt(b"p", 32, &SALT),
        Err(BcryptError::InvalidCost)
    );
}

#[test]
fn boundary_costs_are_accepted() {
    // cost 31 is valid too, but 2^31 rounds belong to a slow integration
    // run, not a unit test; its acceptance is part of the proved contract.
    let h = hash(b"p", 4).unwrap();
    assert_eq!(verify(b"p", &h), Ok(true));
}

#[test]
fn wrong_salt_length_is_invalid() {
    let short = [1u8; 15];
    let long = [1u8; 17];
    assert_eq!(
        hash_with_salt(b"p", 4, &short),
        Err(BcryptError::InvalidSaltLength)
    );
    assert_eq!(
        hash_with_salt(b"p", 4, &long),
        Err(BcryptError::InvalidSaltLength)
    );
}

#[test]
fn malformed_hashes_are_errors_not_false() {
    assert_eq!(
        verify(b"p", "not-a-hash"),
        Err(BcryptError::MalformedHash(MalformedReason::WrongShape))
    );
    let good = hash_with_salt(b"p", 4, &SALT).unwrap();
    let truncated = &good[..40];
    assert_eq!(
        verify(b"p", truncated),
        Err(BcryptError::MalformedHash(MalformedReason::WrongShape))
    );
    // embedded cost outside [4, 31]
    let bad_cost = format!("$2b$99${}", &good[7..]);
    assert_eq!(
        verify(b"p", &bad_cost),
        Err(BcryptError::MalformedHash(MalformedReason::BadCost))
    );
    let bad_cost_low = format!("$2b$03${}", &good[7..]);
    assert_eq!(
        verify(b"p", &bad_cost_low),
        Err(BcryptError::MalformedHash(MalformedReason::BadCost))
    );
    let bad_digits = format!("$2b$4a${}", &good[7..]);
    assert_eq!(
        verify(b"p", &bad_digits),
        Err(BcryptError::MalformedHash(MalformedReason::BadCost))
    );
    let bad_version = format!("$2z${}", &good[4..]);
    assert_eq!(
        verify(b"p", &bad_version),
        Err(BcryptError::MalformedHash(MalformedReason::BadVersion))
    );
    // a byte outside the radix-64 alphabet in the salt field
    let mut bad_symbol = good.clone().into_bytes();
    bad_symbol[8] = b'!';
    let bad_symbol = String::from_utf8(bad_symbol).unwrap();
    assert_eq!(
        verify(b"p", &bad_symbol),
        Err(BcryptError::MalformedHash(MalformedReason::BadEncoding))
    );
    // non-ASCII text is never well-formed
    assert_eq!(
        verify(b"p", "\u{e9}"),
        Err(BcryptError::MalformedHash(MalformedReason::WrongShape))
    );
}

#[test]
fn hash_has_the_canonical_shape() {
    let h = hash_with_salt(b"shape", 4, &SALT).unwrap();
    assert_eq!(h.len(), 60);
    assert!(h.starts_with("$2b$04$"));
    let h9 = hash_with_salt(b"shape", 9, &SALT).unwrap();
    assert!(h9.starts_with("$2b$09$"));
    let h10 = hash_with_salt(b"shape", 10, &SALT).unwrap();
    assert!(h10.starts_with("$2b$10$"));
}

#[test]
fn all_version_tokens_are_accepted_on_verify() {
    let good = hash_with_salt(b"p", 4, &SALT).unwrap();
    for v in ["2a", "2b", "2x", "2y"] {
        let relabeled = format!("${}${}", v, &good[4..]);
        assert_eq!(verify(b"p", &relabeled), Ok(true));
    }
}

#[test]
fn error_descriptions_are_not_empty() {
    for e in [
        BcryptError::InvalidCost,
        BcryptError::InvalidSaltLength,
        BcryptError::RngFailure,
        BcryptError::InvalidEncoding,
        BcryptError::MalformedHash(MalformedReason::WrongShape),
        BcryptError::MalformedHash(MalformedReason::BadVersion),
        BcryptError::MalformedHash(MalformedReason::BadCost),
        BcryptError::MalformedHash(MalformedReason::BadEncoding),
    ] {
        assert!(!e.describe().is_empty());
    }
}
