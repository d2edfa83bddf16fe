//! The radix-64 codec on concrete values.

use bcrypt_engine::codec::{decode, encode};
use bcrypt_engine::errors::BcryptError;

#[test]
fn encode_known_values() {
    // 16 zero bytes encode to 22 dots
    assert_eq!(encode(&[0u8; 16]), b"......................".to_vec());
    // one byte of all ones: 111111 11 0000
    assert_eq!(encode(&[0xffu8]), b"9u".to_vec());
    // the three-byte group 0x00 0x10 0x83 packs to values 0, 1, 2, 3
    assert_eq!(encode(&[0x00u8, 0x10, 0x83]), b"./AB".to_vec());
}

#[test]
fn round_trip_on_salt_and_digest_lengths() {
    let salt: Vec<u8> = (0u8..16).collect();
    let digest: Vec<u8> = (100u8..123).collect();
    assert_eq!(decode(&encode(&salt)), Ok(salt.clone()));
    assert_eq!(decode(&encode(&digest)), Ok(digest.clone()));
    assert_eq!(encode(&salt).len(), 22);
    assert_eq!(encode(&digest).len(), 31);
}

#[test]
fn round_trip_on_other_lengths() {
    for n in 0usize..40 {
        let bytes: Vec<u8> = (0..n).map(|i| (i * 37 + 11) as u8).collect();
        assert_eq!(decode(&encode(&bytes)), Ok(bytes));
    }
}

#[test]
fn bytes_outside_the_alphabet_are_rejected() {
    assert_eq!(decode(b"ab!d"), Err(BcryptError::InvalidEncoding));
    assert_eq!(decode(b"=AAA"), Err(BcryptError::InvalidEncoding));
    assert_eq!(decode(b"AA\x80A"), Err(BcryptError::InvalidEncoding));
}

#[test]
fn lone_trailing_symbol_is_rejected() {
    assert_eq!(decode(b"AAAAB"), Err(BcryptError::InvalidEncoding));
    assert_eq!(decode(b"A"), Err(BcryptError::InvalidEncoding));
}

#[test]
fn empty_input_encodes_to_empty() {
    assert_eq!(encode(&[]), Vec::<u8>::new());
    assert_eq!(decode(b""), Ok(Vec::new()));
}
