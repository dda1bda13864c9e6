use wad::error::WadError;
use wad::name::{decode_name, encode_name, WadName};

fn round_trip(name: &[u8]) {
    let stored = encode_name(name).unwrap();
    assert_eq!(stored.bytes.len(), 8);
    assert_eq!(&stored.bytes[..name.len()], name);
    assert!(stored.bytes[name.len()..].iter().all(|&b| b == 0));
    assert_eq!(decode_name(&stored.bytes).unwrap(), name.to_vec());
}

#[test]
fn name_round_trip_short_and_full() {
    round_trip(b"A");
    round_trip(b"E1M1");
    round_trip(b"STARTAN3");
    round_trip(b"sw1~ !z");
}

#[test]
fn name_round_trip_every_printable_byte() {
    for c in 0x20u8..=0x7e {
        round_trip(&[c]);
        round_trip(&[c; 8]);
    }
}

#[test]
fn encode_too_long_fails() {
    assert!(matches!(encode_name(b"ABCDEFGHI"), Err(WadError::NameTooLong)));
}

#[test]
fn encode_non_printable_fails() {
    assert!(matches!(encode_name(b"AB\0C"), Err(WadError::InvalidName)));
    assert!(matches!(encode_name(&[0x41, 0xc3]), Err(WadError::InvalidName)));
}

#[test]
fn decode_empty_name() {
    assert_eq!(decode_name(&[0u8; 8]).unwrap(), Vec::<u8>::new());
}

#[test]
fn decode_byte_after_padding_fails() {
    assert_eq!(decode_name(b"E1M1\0X\0\0"), Err(WadError::InvalidName));
}

#[test]
fn decode_non_ascii_fails() {
    assert_eq!(decode_name(b"E1\xc9M1\0\0\0"), Err(WadError::InvalidName));
    assert_eq!(decode_name(b"E1\x07M1\0\0\0"), Err(WadError::InvalidName));
}

#[test]
fn names_compare_without_case() {
    let a = WadName::from_bytes(*b"E1M1\0\0\0\0");
    let b = WadName::from_bytes(*b"e1m1\0\0\0\0");
    let c = WadName::from_bytes(*b"E1M2\0\0\0\0");
    assert!(a.eq_ignore_case(&b));
    assert!(!a.eq_ignore_case(&c));
    assert!(a.matches(b"e1M1"));
    assert!(!a.matches(b"E1M"));
    assert!(!a.matches(b"E1M1X"));
    assert_eq!(a.len(), 4);
    assert_eq!(a.logical_bytes(), b"E1M1");
}

#[test]
fn names_ignore_bytes_after_first_zero_when_compared() {
    let a = WadName::from_bytes(*b"FLOOR\0ZZ");
    assert!(a.matches(b"floor"));
}
