//! Session tokens and hexadecimal text.

use base64::Engine;
use sha2::Digest;

use wyrtloom_dashboard::session::{
    hex, hex_decode, join_token, mint, parse, read_stamp, split_token, Stamp, TokenError,
};

/// A keyed digest, standing in for the security module.
struct Security {
    key: [u8; 32],
}

impl Security {
    fn stamp(&self, bytes: &[u8]) -> Stamp {
        let mut hasher = sha2::Sha256::new();
        hasher.update(self.key);
        hasher.update(bytes);
        Stamp(hasher.finalize().into())
    }

    fn is_valid(&self, stamp: &Stamp, bytes: &[u8]) -> bool {
        self.stamp(bytes) == *stamp
    }
}

fn payload(user_id: &str, role: &str, exp_unix: i64, nonce: &str) -> Vec<u8> {
    format!(
        "{{\"user_id\":\"{user_id}\",\"roles\":[\"{role}\"],\"exp_unix\":{exp_unix},\"nonce\":\"{nonce}\"}}"
    )
    .into_bytes()
}

#[test]
fn mint_then_parse_roundtrips_and_verifies() {
    let sec = Security { key: [3u8; 32] };
    let json = payload("alice", "Viewer", 1_000_000, "n1");
    let token = mint(&json, &sec.stamp(&json));
    let (bytes, stamp) = parse(&token).expect("parse");
    let back: serde_json::Value = serde_json::from_slice(&bytes).unwrap();
    assert_eq!(back["user_id"], "alice");
    assert!(sec.is_valid(&stamp, &bytes));
    assert_eq!(bytes, json);
}

#[test]
fn tampered_payload_fails_stamp() {
    let sec = Security { key: [4u8; 32] };
    let json = payload("bob", "Admin", 1_000_000, "n2");
    let token = mint(&json, &sec.stamp(&json));
    let stamp_hex = token.split_once('.').unwrap().1;
    let forged_payload = payload("bob", "Admin", 9_999_999, "n2");
    let forged_b64 = base64::engine::general_purpose::STANDARD.encode(&forged_payload);
    let forged_token = format!("{forged_b64}.{stamp_hex}");
    let (bytes, stamp) = parse(&forged_token).expect("parse");
    assert!(!sec.is_valid(&stamp, &bytes), "tampered payload must fail stamp");
}

#[test]
fn garbage_tokens_are_malformed() {
    assert!(parse("no-dot").is_err());
    assert!(parse("####.zz").is_err());
}

#[test]
fn token_is_base64_dot_hex() {
    let token = mint(b"hello", &Stamp([0xab; 32]));
    assert_eq!(token, format!("aGVsbG8=.{}", "ab".repeat(32)));
    assert_eq!(parse(&token), Ok((b"hello".to_vec(), Stamp([0xab; 32]))));
    assert_eq!(mint(b"", &Stamp([0; 32])), format!(".{}", "00".repeat(32)));
}

#[test]
fn each_half_of_a_token_must_decode() {
    let stamp = "00".repeat(32);
    assert_eq!(parse(&format!("a.{stamp}")), Err(TokenError::Malformed));
    assert_eq!(parse("aGVsbG8=.00"), Err(TokenError::Malformed));
    assert_eq!(parse(&format!("aGVsbG8=.{stamp}00")), Err(TokenError::Malformed));
    assert_eq!(parse(&format!("aGVsbG8=.{stamp}.")), Err(TokenError::Malformed));
    assert_eq!(parse("."), Err(TokenError::Malformed));
    assert_eq!(parse(&format!("aGVsbG8=.{}", "AB".repeat(32))), Ok((
        b"hello".to_vec(),
        Stamp([0xab; 32])
    )));
}

#[test]
fn token_halves_split_at_the_first_dot() {
    assert_eq!(split_token("a.b.c"), Some(("a".to_string(), "b.c".to_string())));
    assert_eq!(split_token("abc"), None);
    assert_eq!(join_token("x", &Stamp([1; 32])), format!("x.{}", "01".repeat(32)));
    assert_eq!(read_stamp(&"0f".repeat(32)), Some(Stamp([15; 32])));
    assert_eq!(read_stamp("0f"), None);
}

#[test]
fn hex_is_lowercase_and_reads_back() {
    assert_eq!(hex(&[]), "");
    assert_eq!(hex(&[0x00, 0x0f, 0xa0, 0xff]), "000fa0ff");
    let all: Vec<u8> = (0..=255).collect();
    assert_eq!(hex_decode(&hex(&all)), Some(all));
}

#[test]
fn hex_decoding_refuses_odd_and_foreign_text() {
    assert_eq!(hex_decode(""), Some(vec![]));
    assert_eq!(hex_decode("DEADbeef"), Some(vec![0xde, 0xad, 0xbe, 0xef]));
    assert_eq!(hex_decode("abc"), None);
    assert_eq!(hex_decode("0g"), None);
    assert_eq!(hex_decode("é"), None);
    assert_eq!(hex_decode(" 0"), None);
}
