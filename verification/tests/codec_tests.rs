//! The base64url codec and the integer byte codec.
use pushauth::codec::{decode, encode, decode_u64, encode_u64};

#[test]
fn encode_32_bytes_yields_43_chars() {
    let bytes = [0u8; 32];
    let s = encode(&bytes);
    assert_eq!(s.len(), 43);
    assert_eq!(s, "A".repeat(43));
}

#[test]
fn encode_random_32_bytes_yields_43_chars() {
    let bytes = pushauth::crypto::random(32).unwrap();
    let s = encode(&bytes);
    assert_eq!(s.len(), 43);
}

#[test]
fn decode_43_chars_yields_32_bytes() {
    let bytes: Vec<u8> = (0u8..32).collect();
    let s = encode(&bytes);
    let back = decode(&s).unwrap();
    assert_eq!(back.len(), 32);
    assert_eq!(back, bytes);
    // any well-formed 43-character string decodes to exactly 32 bytes
    assert_eq!(decode(&"A".repeat(43)).unwrap(), vec![0u8; 32]);
}

#[test]
fn encode_known_value() {
    assert_eq!(encode(&[0, 0, 0]), "AAAA");
    assert_eq!(encode(&[255, 255, 254]), "___-");
    assert_eq!(encode(b"hi"), "aGk");
}

#[test]
fn decode_known_value() {
    assert_eq!(decode("AAAA").unwrap(), vec![0, 0, 0]);
    assert_eq!(decode("aGk").unwrap(), b"hi".to_vec());
}

#[test]
fn decode_rejects_malformed_input() {
    assert!(decode("!").is_err());
    assert!(decode("ab=c").is_err());
    // padding is refused outright in the unpadded alphabet
    assert!(decode("aGk=").is_err());
    // a dangling trailing-bits encoding is refused by strict decoding
    assert!(decode("aGl").is_err());
}

#[test]
fn encode_empty_is_empty() {
    assert_eq!(encode(&[]), "");
    assert_eq!(decode("").unwrap(), Vec::<u8>::new());
}

#[test]
fn u64_round_trip() {
    let x = 0x0102030405060708u64;
    let b = encode_u64(x);
    assert_eq!(b, vec![1, 2, 3, 4, 5, 6, 7, 8]);
    assert_eq!(decode_u64(&b), x);
    assert_eq!(decode_u64(&encode_u64(u64::MAX)), u64::MAX);
    assert_eq!(decode_u64(&encode_u64(0)), 0);
}

#[test]
fn u64_decode_wrong_length_is_zero() {
    assert_eq!(decode_u64(&[1, 2, 3]), 0);
    assert_eq!(decode_u64(&[]), 0);
}
