//! The score-integrity codec: determinism, field sensitivity, and the
//! sign/verify round trip.

use hmac::Mac;

use jornet::integrity::{sign, verify};

const SECRET: [u8; 16] = [
    0x01, 0x02, 0x03, 0x04, 0x05, 0x06, 0x07, 0x08, 0x09, 0x0a, 0x0b, 0x0c, 0x0d, 0x0e, 0x0f, 0x10,
];
const LBKEY: [u8; 16] = [
    0xa0, 0xa1, 0xa2, 0xa3, 0xa4, 0xa5, 0xa6, 0xa7, 0xa8, 0xa9, 0xaa, 0xab, 0xac, 0xad, 0xae, 0xaf,
];
const PLAYER: [u8; 16] = [
    0x40, 0x41, 0x42, 0x43, 0x44, 0x45, 0x46, 0x47, 0x48, 0x49, 0x4a, 0x4b, 0x4c, 0x4d, 0x4e, 0x4f,
];

fn tag(meta: Option<&str>, score_bits: u32, timestamp: u64) -> String {
    sign(&SECRET, &LBKEY, &PLAYER, score_bits, meta, timestamp).unwrap()
}

#[test]
fn sign_is_deterministic() {
    let a = tag(Some("m"), 0x40a00000, 7);
    let b = tag(Some("m"), 0x40a00000, 7);
    assert_eq!(a, b);
}

#[test]
fn sign_depends_on_every_field() {
    let base = tag(Some("m"), 0x40a00000, 7);
    let mut other_key = SECRET;
    other_key[0] ^= 1;
    assert_ne!(
        base,
        sign(&other_key, &LBKEY, &PLAYER, 0x40a00000, Some("m"), 7).unwrap()
    );
    let mut other_lb = LBKEY;
    other_lb[15] ^= 1;
    assert_ne!(
        base,
        sign(&SECRET, &other_lb, &PLAYER, 0x40a00000, Some("m"), 7).unwrap()
    );
    let mut other_player = PLAYER;
    other_player[7] ^= 1;
    assert_ne!(
        base,
        sign(&SECRET, &LBKEY, &other_player, 0x40a00000, Some("m"), 7).unwrap()
    );
    assert_ne!(base, tag(Some("m"), 0x40a00001, 7));
    assert_ne!(base, tag(Some("n"), 0x40a00000, 7));
    assert_ne!(base, tag(None, 0x40a00000, 7));
    assert_ne!(base, tag(Some("m"), 0x40a00000, 8));
}

#[test]
fn sign_distinguishes_missing_meta_from_empty_meta() {
    assert_ne!(tag(None, 1, 1), tag(Some(""), 1, 1));
}

#[test]
fn sign_matches_reference_mac() {
    let timestamp: u64 = 1234;
    let score_bits: u32 = 0x41100000;
    let got = tag(Some("win"), score_bits, timestamp);

    let mut msg: Vec<u8> = Vec::new();
    msg.extend_from_slice(&timestamp.to_le_bytes());
    msg.extend_from_slice(&LBKEY);
    msg.extend_from_slice(&PLAYER);
    msg.extend_from_slice(&score_bits.to_le_bytes());
    msg.push(1u8);
    msg.extend_from_slice(b"win");
    let mut mac = hmac::Hmac::<sha2::Sha256>::new_from_slice(&SECRET).unwrap();
    mac.update(&msg);
    let expected = hex::encode(&mac.finalize().into_bytes()[..]);
    assert_eq!(got, expected);
    assert_eq!(got.len(), 64);
}

#[test]
fn sign_rejects_short_or_long_keys() {
    assert!(sign(&SECRET[..15], &LBKEY, &PLAYER, 1, None, 1).is_err());
    assert!(sign(&SECRET, &LBKEY[..3], &PLAYER, 1, None, 1).is_err());
    let long = [0u8; 17];
    assert!(sign(&SECRET, &LBKEY, &long, 1, None, 1).is_err());
}

#[test]
fn verify_accepts_signed_tag() {
    let t = tag(Some("m"), 0x40a00000, 7);
    let ok = verify(&t, &SECRET, &LBKEY, &PLAYER, 0x40a00000, Some("m"), 7).unwrap();
    assert!(ok);
}

#[test]
fn verify_rejects_any_mutated_field() {
    let t = tag(Some("m"), 0x40a00000, 7);
    assert!(!verify(&t, &SECRET, &LBKEY, &PLAYER, 0x40a00001, Some("m"), 7).unwrap());
    assert!(!verify(&t, &SECRET, &LBKEY, &PLAYER, 0x40a00000, Some("n"), 7).unwrap());
    assert!(!verify(&t, &SECRET, &LBKEY, &PLAYER, 0x40a00000, None, 7).unwrap());
    assert!(!verify(&t, &SECRET, &LBKEY, &PLAYER, 0x40a00000, Some("m"), 8).unwrap());
    let mut other_key = SECRET;
    other_key[3] ^= 0x80;
    assert!(!verify(&t, &other_key, &LBKEY, &PLAYER, 0x40a00000, Some("m"), 7).unwrap());
}

#[test]
fn verify_rejects_corrupt_tag() {
    let t = tag(None, 5, 9);
    let mut corrupt = t.clone();
    let last = corrupt.pop().unwrap();
    corrupt.push(if last == '0' { '1' } else { '0' });
    assert!(!verify(&corrupt, &SECRET, &LBKEY, &PLAYER, 5, None, 9).unwrap());
    let truncated = &t[..t.len() - 1];
    assert!(!verify(truncated, &SECRET, &LBKEY, &PLAYER, 5, None, 9).unwrap());
}

#[test]
fn verify_rejects_bad_key_width() {
    let t = tag(None, 5, 9);
    assert!(verify(&t, &SECRET[..8], &LBKEY, &PLAYER, 5, None, 9).is_err());
}
