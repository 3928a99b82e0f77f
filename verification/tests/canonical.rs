//! Canonical request bytes, and the parts of a request they are made of.

use sha2::Digest;

use wyrtloom_dashboard::auth::{present, verify_client, RequestHead};
use wyrtloom_dashboard::canonical::canonical_request;
use wyrtloom_dashboard::decimal::parse_i64;
use wyrtloom_dashboard::headers::{header, HeaderEntry};
use wyrtloom_dashboard::session::hex;

#[test]
fn golden_vector() {
    let bytes = canonical_request("POST", "/api/login", &[0xab; 32], "abc", 1_700_000_000, "n1");
    let expected = [
        "0000000000000017",
        "777972746c6f6f6d2d636c69656e742d617574682d7631",
        "0000000000000004",
        "504f5354",
        "000000000000000a",
        "2f6170692f6c6f67696e",
        "0000000000000020",
        "abababababababababababababababababababababababababababababababab",
        "0000000000000003",
        "616263",
        "0000000000000008",
        "000000006553f100",
        "0000000000000002",
        "6e31",
    ]
    .concat();
    assert_eq!(hex(&bytes), expected);
}

#[test]
fn negative_timestamps_are_twos_complement() {
    let bytes = canonical_request("", "", &[], "", -1, "");
    assert!(hex(&bytes).ends_with("0000000000000008ffffffffffffffff0000000000000000"));
}

#[test]
fn field_boundaries_are_unambiguous() {
    let one = canonical_request("GET", "/a", &[0; 32], "b", 0, "c");
    let other = canonical_request("GET/", "a", &[0; 32], "b", 0, "c");
    assert_ne!(one, other);
    let shifted = canonical_request("GET", "/a", &[0; 32], "bc", 0, "");
    assert_ne!(one, shifted);
}

fn entry(name: &str, value: &str) -> HeaderEntry {
    HeaderEntry { name: name.to_string(), value: value.as_bytes().to_vec() }
}

fn head() -> RequestHead {
    RequestHead {
        method: "GET".to_string(),
        path: "/api/board?states=Todo".to_string(),
        headers: vec![
            entry("x-wyrtloom-client", "abc"),
            entry("x-wyrtloom-timestamp", "1700000000"),
            entry("x-wyrtloom-nonce", "n1"),
            entry("x-wyrtloom-signature", "00FF"),
        ],
        peer: None,
    }
}

#[test]
fn presentation_is_rebuilt_from_the_request() {
    let presented = verify_client(&head(), b"body").unwrap();
    assert_eq!(presented.client_id, "abc");
    assert_eq!(presented.timestamp, 1_700_000_000);
    assert_eq!(presented.nonce, "n1");
    assert_eq!(presented.signature, vec![0x00, 0xff]);
    let digest = sha2::Sha256::digest(b"body");
    let canonical = canonical_request(
        "GET",
        "/api/board?states=Todo",
        digest.as_slice(),
        "abc",
        1_700_000_000,
        "n1",
    );
    assert_eq!(presented.canonical_request, canonical);
    assert!(hex(&presented.canonical_request)
        .contains("230d8358dc8e8890b4c58deeb62912ee2f20357ae92a5cc861b98e68fe31acb5"));
}

#[test]
fn empty_body_is_digested_too() {
    let presented = verify_client(&head(), b"").unwrap();
    assert!(hex(&presented.canonical_request)
        .contains("e3b0c44298fc1c149afbf4c8996fb92427ae41e4649b934ca495991b7852b855"));
}

#[test]
fn presentation_takes_any_digest() {
    let presented = present(&head(), &[7; 32]).unwrap();
    assert!(hex(&presented.canonical_request).contains(&"07".repeat(32)));
}

#[test]
fn timestamps_are_decimal() {
    assert_eq!(parse_i64("0"), Some(0));
    assert_eq!(parse_i64("+17"), Some(17));
    assert_eq!(parse_i64("-17"), Some(-17));
    assert_eq!(parse_i64("0017"), Some(17));
    assert_eq!(parse_i64("9223372036854775807"), Some(i64::MAX));
    assert_eq!(parse_i64("-9223372036854775808"), Some(i64::MIN));
    for text in ["", "+", "-", "1 ", " 1", "1.0", "9223372036854775808", "--1", "1_0", "١"] {
        assert_eq!(parse_i64(text), None, "{text}");
        assert!(text.parse::<i64>().is_err(), "{text}");
    }
}

#[test]
fn first_visible_header_counts() {
    let headers = vec![entry("a", "one"), entry("a", "two"), entry("b", "tab\there")];
    assert_eq!(header(&headers, "a"), Some("one".to_string()));
    assert_eq!(header(&headers, "b"), Some("tab\there".to_string()));
    assert_eq!(header(&headers, "c"), None);
    let opaque = vec![
        HeaderEntry { name: "a".to_string(), value: vec![0xff] },
        entry("a", "shadowed"),
    ];
    assert_eq!(header(&opaque, "a"), None);
    let control = vec![HeaderEntry { name: "a".to_string(), value: vec![127] }];
    assert_eq!(header(&control, "a"), None);
}
