//! Published reference vectors and a cross-check against the widely used
//! `bcrypt` crate, so the engine stays byte-for-byte interoperable.

use bcrypt_engine::engine::{hash_with_salt, verify};
use bcrypt_engine::format::parse;

/// The salt bytes embedded in a published hash string.
fn salt_of(encoded: &str) -> Vec<u8> {
    parse(encoded.as_bytes()).unwrap().salt
}

/// The classic crypt_blowfish test vectors (cost 5).
#[test]
fn published_vectors_verify() {
    let cases = [
        ("$2a$05$CCCCCCCCCCCCCCCCCCCCC.E5YPO9kmyuRGyh0XouQYb4YMJKvyOeW", "U*U"),
        ("$2a$05$CCCCCCCCCCCCCCCCCCCCC.VGOzA784oUp/Z0DY336zx7pLYAy0lwK", "U*U*"),
        ("$2a$05$XXXXXXXXXXXXXXXXXXXXXOAcXxm9kjPGEMsLznoKqmqw7tc8WCx4a", "U*U*U"),
        ("$2a$06$m0CrhHm10qJ3lXRY.5zDGO3rS2KdeeWLuGmsfGlMfOxih58VYVfxe", "a"),
        ("$2a$08$aTsUwsyowQuzRrDqFflhgekJ8d9/7Z3GV3UcgvzQW3J5zMyrTvlz.", "abcdefghijklmnopqrstuvwxyz"),
    ];
    for (encoded, password) in cases {
        assert_eq!(verify(password.as_bytes(), encoded), Ok(true));
        assert_eq!(verify(b"wrong", encoded), Ok(false));
    }
}

/// The same vectors reproduced exactly: the salt is taken from the
/// published string and the digest recomputed; only the version token
/// (ours is always `2b`, the published ones are `2a`) differs.
#[test]
fn published_vectors_reproduce_exactly() {
    let cases = [
        ("$2a$05$CCCCCCCCCCCCCCCCCCCCC.E5YPO9kmyuRGyh0XouQYb4YMJKvyOeW", "U*U"),
        ("$2a$05$XXXXXXXXXXXXXXXXXXXXXOAcXxm9kjPGEMsLznoKqmqw7tc8WCx4a", "U*U*U"),
    ];
    for (encoded, password) in cases {
        let salt = salt_of(encoded);
        let ours = hash_with_salt(password.as_bytes(), 5, &salt).unwrap();
        assert!(ours.starts_with("$2b$05$"));
        assert_eq!(&ours[4..], &encoded[4..]);
    }
}

/// The password `password` with a fixed salt at cost 10 reproduces the
/// reference implementation's encoded hash byte for byte.
#[test]
fn password_cost_ten_vector() {
    let salt = salt_of("$2a$10$N9qo8uLOickgx2ZMRZoMyeIjZAgcfl7p92ldGxad68LJZdL17lhWy");
    let salt: [u8; 16] = salt.try_into().unwrap();
    let theirs = bcrypt::hash_with_salt(b"password", 10, salt)
        .unwrap()
        .format_for_version(bcrypt::Version::TwoB);
    let ours = hash_with_salt(b"password", 10, &salt).unwrap();
    assert_eq!(ours, theirs);
    assert_eq!(verify(b"password", &ours), Ok(true));
}

/// A password longer than 72 bytes, from the crypt_blowfish suite: the
/// tail beyond 72 bytes is ignored.
#[test]
fn published_truncation_vector() {
    let encoded = "$2a$05$abcdefghijklmnopqrstuu5s2v8.iXieOjg/.AySBTTZIIVFJeBui";
    let password = "0123456789abcdefghijklmnopqrstuvwxyzABCDEFGHIJKLMNOPQRSTUVWXYZ0123456789chars after 72 are ignored";
    assert_eq!(verify(password.as_bytes(), encoded), Ok(true));
}

/// Agreement with the `bcrypt` crate in both directions.
#[test]
fn agrees_with_the_bcrypt_crate() {
    let salt: [u8; 16] = *b"0123456789abcdef";
    let password = b"interoperability";
    let theirs = bcrypt::hash_with_salt(password, 6, salt)
        .unwrap()
        .format_for_version(bcrypt::Version::TwoB);
    let ours = hash_with_salt(password, 6, &salt).unwrap();
    assert_eq!(ours, theirs);
    assert_eq!(verify(password, &theirs), Ok(true));
    assert!(bcrypt::verify(password, &ours).unwrap());
}
