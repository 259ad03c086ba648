//! Tests for the byte-level utility functions.
use poneglyphdb::utils::{bytes_to_hex, hex_to_bytes, pad_bytes, simple_hash, truncate_or_pad};

#[test]
fn test_bytes_to_hex() {
    let bytes = vec![0x12, 0x34, 0xab, 0xcd];
    let hex = bytes_to_hex(&bytes);
    assert_eq!(hex, "1234abcd");
}

#[test]
fn test_hex_to_bytes() {
    let hex = "1234abcd";
    let bytes = hex_to_bytes(hex).unwrap();
    assert_eq!(bytes, vec![0x12, 0x34, 0xab, 0xcd]);
}

#[test]
fn test_hex_to_bytes_odd_length() {
    let hex = "123";
    let result = hex_to_bytes(hex);
    assert!(result.is_err());
    assert!(result.unwrap_err().contains("even length"));
}

#[test]
fn test_hex_to_bytes_invalid_char() {
    let result = hex_to_bytes("12g4");
    assert!(result.is_err());
    assert_eq!(
        result.unwrap_err(),
        "Invalid hex character at position 2".to_string()
    );
}

#[test]
fn test_hex_to_bytes_uppercase() {
    assert_eq!(hex_to_bytes("ABCDEF01").unwrap(), vec![0xab, 0xcd, 0xef, 0x01]);
}

#[test]
fn test_hex_round_trip() {
    let bytes = vec![0x00, 0xff, 0x10, 0x7f];
    assert_eq!(hex_to_bytes(&bytes_to_hex(&bytes)).unwrap(), bytes);
}

#[test]
fn test_simple_hash() {
    let data = b"test data";
    let hash1 = simple_hash(data);
    let hash2 = simple_hash(data);
    assert_eq!(hash1, hash2);
}

#[test]
fn test_pad_bytes() {
    let bytes = b"test";
    let padded = pad_bytes(bytes, 8, 0);
    assert_eq!(padded.len(), 8);
    assert_eq!(&padded[0..4], bytes);
}

#[test]
fn test_pad_bytes_already_long() {
    let bytes = b"test data";
    let padded = pad_bytes(bytes, 4, 0);
    assert_eq!(padded, bytes.to_vec());
}

#[test]
fn test_truncate_or_pad() {
    let bytes = b"test data long";
    let result = truncate_or_pad(bytes, 8, 0);
    assert_eq!(result.len(), 8);
}

#[test]
fn test_truncate_or_pad_pads() {
    let result = truncate_or_pad(b"ab", 4, 7);
    assert_eq!(result, vec![b'a', b'b', 7, 7]);
}
