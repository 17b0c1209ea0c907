use mine_service::codec::{decode_hex, encode_base58};
use mine_service::oracle::difficulty;

#[test]
fn decodes_hex_pairs() {
    assert_eq!(decode_hex("00ff10"), Some(vec![0u8, 255u8, 16u8]));
    assert_eq!(decode_hex(""), Some(vec![]));
    assert_eq!(decode_hex("AbCd"), Some(vec![0xabu8, 0xcdu8]));
}

#[test]
fn refuses_bad_hex() {
    assert_eq!(decode_hex("0"), None);
    assert_eq!(decode_hex("zz"), None);
    assert_eq!(decode_hex("0g"), None);
}

#[test]
fn base58_of_zero_bytes_is_all_ones() {
    let s = encode_base58(&[0u8; 32]);
    assert_eq!(s, "1".repeat(32));
}

#[test]
fn base58_matches_direct_encoding() {
    let bytes = [1u8; 32];
    let s = encode_base58(&bytes);
    assert_eq!(s, bs58::encode(&bytes).into_string());
    assert_ne!(s, "1".repeat(32));
}

#[test]
fn difficulty_counts_leading_zero_bits() {
    assert_eq!(difficulty(&[0u8; 32]), 256);
    let mut h = [0u8; 32];
    h[0] = 0x80;
    assert_eq!(difficulty(&h), 0);
    h[0] = 1;
    assert_eq!(difficulty(&h), 7);
    h[0] = 0;
    h[1] = 0;
    h[2] = 0x20;
    assert_eq!(difficulty(&h), 18);
}

#[test]
fn difficulty_matches_oracle_scoring() {
    let mut h = [0u8; 32];
    h[0] = 0;
    h[1] = 3;
    h[31] = 9;
    assert_eq!(difficulty(&h), drillx::difficulty(h));
    assert_eq!(difficulty(&[0u8; 32]), drillx::difficulty([0u8; 32]));
}
