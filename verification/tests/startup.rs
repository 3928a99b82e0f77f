//! The rules of startup.

use wyrtloom_dashboard::headers::HeaderEntry;
use wyrtloom_dashboard::startup::{
    build_cors, can_decide_origins, is_loopback, num_cpus, read_key, secure_response,
    security_headers, IpAddress, KeyError,
};

fn v4(octets: [u8; 4]) -> IpAddress {
    IpAddress::V4 { octets }
}

fn v6(segments: [u16; 8]) -> IpAddress {
    IpAddress::V6 { segments }
}

#[test]
fn loopback_addresses() {
    assert!(is_loopback(v4([127, 0, 0, 1])));
    assert!(is_loopback(v4([127, 255, 255, 254])));
    assert!(!is_loopback(v4([0, 0, 0, 0])));
    assert!(!is_loopback(v4([128, 0, 0, 1])));
    assert!(is_loopback(v6([0, 0, 0, 0, 0, 0, 0, 1])));
    assert!(!is_loopback(v6([0; 8])));
    assert!(!is_loopback(v6([0, 0, 0, 0, 0, 0xffff, 0x7f00, 1])));
    assert!(!is_loopback(v6([1, 0, 0, 0, 0, 0, 0, 1])));
}

#[test]
fn key_files() {
    let mut bytes = vec![0u8; 32];
    assert_eq!(read_key(&bytes), Err(KeyError::AllZero));
    bytes[31] = 1;
    assert_eq!(read_key(&bytes).unwrap().to_vec(), bytes);
    bytes.push(7);
    assert_eq!(read_key(&bytes), Err(KeyError::WrongLength));
    assert_eq!(read_key(&[]), Err(KeyError::WrongLength));
    assert_eq!(KeyError::WrongLength.message(), "session key file must be exactly 32 bytes");
    assert_eq!(KeyError::AllZero.message(), "session key file is all-zero (invalid)");
}

#[test]
fn no_origins_no_credentials() {
    let policy = build_cors(&vec![]).unwrap();
    assert!(policy.origins.is_empty());
    assert!(!policy.allow_credentials);
    assert_eq!(policy.methods, vec!["GET", "POST", "PUT"]);
    assert_eq!(
        policy.headers,
        vec![
            "authorization",
            "content-type",
            "x-wyrtloom-client",
            "x-wyrtloom-timestamp",
            "x-wyrtloom-nonce",
            "x-wyrtloom-signature",
        ]
    );
}

#[test]
fn origins_are_kept_exactly() {
    let origins = vec!["https://dashboard.example".to_string(), "http://localhost:1".to_string()];
    let policy = build_cors(&origins).unwrap();
    assert_eq!(policy.origins, origins);
    assert!(policy.allow_credentials);
}

#[test]
fn invalid_origin_is_named() {
    let origins = vec!["https://ok".to_string(), "bad\norigin".to_string(), "\u{7f}".to_string()];
    assert_eq!(build_cors(&origins).unwrap_err(), "invalid --cors-origin 'bad\norigin'");
    assert!(build_cors(&vec!["\u{7f}".to_string()]).is_err());
    // An invalid origin is reported whatever else is listed.
    let origins = vec!["*".to_string(), "\n".to_string()];
    assert!(can_decide_origins(&origins));
    assert_eq!(build_cors(&origins).unwrap_err(), "invalid --cors-origin '\n'");
    assert!(!can_decide_origins(&vec!["https://ok".to_string(), "*".to_string()]));
    assert!(can_decide_origins(&vec![]));
    assert!(can_decide_origins(&vec!["https://*.example".to_string()]));
    assert!(build_cors(&vec!["a\tb".to_string(), "https://\u{e9}".to_string()]).is_ok());
}

#[test]
fn every_response_carries_the_security_headers() {
    let headers = security_headers();
    assert_eq!(headers[0].name, "content-security-policy");
    assert_eq!(
        headers[0].value,
        "default-src 'self'; script-src 'self'; object-src 'none'; base-uri 'none'; frame-ancestors 'none'"
    );
    assert_eq!((headers[1].name, headers[1].value), ("x-content-type-options", "nosniff"));
    assert_eq!((headers[2].name, headers[2].value), ("referrer-policy", "no-referrer"));
}

#[test]
fn security_headers_override_what_was_set() {
    let entry = |name: &str, value: &str| HeaderEntry {
        name: name.to_string(),
        value: value.as_bytes().to_vec(),
    };
    let sent = secure_response(&vec![
        entry("content-type", "application/json"),
        entry("referrer-policy", "unsafe-url"),
        entry("content-security-policy", "default-src *"),
        entry("referrer-policy", "origin"),
        entry("allow", "GET,HEAD"),
    ]);
    let names: Vec<&str> = sent.iter().map(|header| header.name.as_str()).collect();
    assert_eq!(
        names,
        vec![
            "content-type",
            "allow",
            "content-security-policy",
            "x-content-type-options",
            "referrer-policy",
        ]
    );
    assert_eq!(sent[2].value, security_headers()[0].value.as_bytes());
    assert_eq!(sent[3].value, b"nosniff");
    assert_eq!(sent[4].value, b"no-referrer");
    assert_eq!(secure_response(&vec![]).len(), 3);
}

#[test]
fn at_least_one_login_slot() {
    assert_eq!(num_cpus(None), 1);
    assert_eq!(num_cpus(Some(0)), 1);
    assert_eq!(num_cpus(Some(8)), 8);
}
