//! The fixed-width id type: canonical formatting, parsing, and rejection of
//! every other shape.

use jornet::ids::UuidBytes;

const BYTES: [u8; 16] = [
    0x93, 0x6d, 0xa0, 0x1f, 0x9a, 0xbd, 0x4d, 0x9d, 0x80, 0xc7, 0x02, 0xaf, 0x85, 0xc8, 0x22, 0xa8,
];
const TEXT: &str = "936da01f-9abd-4d9d-80c7-02af85c822a8";

#[test]
fn formats_canonical_hyphenated_text() {
    let u = UuidBytes::from_slice(&BYTES).unwrap();
    assert_eq!(u.to_hyphenated(), TEXT);
}

#[test]
fn formatting_agrees_with_uuid_crate() {
    let u = UuidBytes::from_slice(&BYTES).unwrap();
    let reference = uuid::Uuid::from_bytes(BYTES);
    assert_eq!(u.to_hyphenated(), reference.to_string());
}

#[test]
fn parses_canonical_text_back() {
    let u = UuidBytes::parse_hyphenated(TEXT).unwrap();
    assert_eq!(u.bytes(), &BYTES);
}

#[test]
fn format_parse_round_trip() {
    let zero = UuidBytes::from_slice(&[0u8; 16]).unwrap();
    let text = zero.to_hyphenated();
    assert_eq!(text, "00000000-0000-0000-0000-000000000000");
    let back = UuidBytes::parse_hyphenated(&text).unwrap();
    assert_eq!(back.bytes(), &[0u8; 16]);
}

#[test]
fn rejects_malformed_text() {
    assert!(UuidBytes::parse_hyphenated("").is_none());
    assert!(UuidBytes::parse_hyphenated("936da01f-9abd-4d9d-80c7-02af85c822a").is_none());
    assert!(UuidBytes::parse_hyphenated("936da01f-9abd-4d9d-80c7-02af85c822a8a").is_none());
    assert!(UuidBytes::parse_hyphenated("936DA01F-9ABD-4D9D-80C7-02AF85C822A8").is_none());
    assert!(UuidBytes::parse_hyphenated("936da01f09abd04d9d080c7002af85c822a8").is_none());
    assert!(UuidBytes::parse_hyphenated("936da01f-9abd-4d9d-80c7-02af85c822g8").is_none());
}

#[test]
fn rejects_wrong_width_bytes() {
    assert!(UuidBytes::from_slice(&BYTES[..15]).is_err());
    assert!(UuidBytes::from_slice(&[0u8; 17]).is_err());
    assert!(UuidBytes::from_slice(&[]).is_err());
}
