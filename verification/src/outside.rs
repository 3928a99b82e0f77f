//! Calls into the encoding, digest, identifier, JSON and HTTP crates.
//!
//! Each function here makes one call; its contract is believed, not proved.

use base64::Engine;
use sha2::Digest;
use vstd::prelude::*;
use vstd::utf8::*;

verus! {

/// What `base64::engine::general_purpose::STANDARD` encodes `bytes` to.
pub uninterp spec fn base64_text(bytes: Seq<u8>) -> Seq<char>;

/// What `base64::engine::general_purpose::STANDARD` decodes `text` to.
pub uninterp spec fn base64_bytes(text: Seq<char>) -> Option<Seq<u8>>;

/// What `base64::engine::general_purpose::URL_SAFE_NO_PAD` encodes `bytes` to.
pub uninterp spec fn base64_url_text(bytes: Seq<u8>) -> Seq<char>;

/// The SHA-256 digest of `bytes`.
pub uninterp spec fn sha256(bytes: Seq<u8>) -> Seq<u8>;

/// The 128 bits of the UUID that `uuid::Uuid::parse_str` reads from `text`.
pub uninterp spec fn uuid_bits(text: Seq<char>) -> Option<u128>;

/// The JSON string that `serde_json` writes for `text`, quotes included.
pub uninterp spec fn json_string(text: Seq<char>) -> Seq<char>;

/// The length of the padded base64 text of `len` bytes.
pub open spec fn base64_len(len: nat) -> nat {
    (len + 2) / 3 * 4
}

/// `base64::engine::general_purpose::STANDARD.encode`.
///
/// The text is a function of the bytes, the same engine decodes it back to
/// them, and it is made of letters, digits, `+`, `/` and `=` alone. The call
/// panics when the text is too long to allocate, so such inputs are left out.
#[verifier::external_body]
pub(crate) fn encode_base64(bytes: &[u8]) -> (text: String)
    requires
        base64_len(bytes@.len()) <= isize::MAX,
    ensures
        text@ == base64_text(bytes@),
        base64_bytes(text@) == Some(bytes@),
        !text@.contains('.'),
{
    base64::engine::general_purpose::STANDARD.encode(bytes)
}

/// `base64::engine::general_purpose::STANDARD.decode`: the result, with the
/// error dropped, is a function of the text.
#[verifier::external_body]
pub(crate) fn decode_base64(text: &str) -> (bytes: Option<Vec<u8>>)
    ensures
        bytes is Some <==> base64_bytes(text@) is Some,
        bytes is Some ==> bytes->0@ == base64_bytes(text@)->0,
{
    base64::engine::general_purpose::STANDARD.decode(text).ok()
}

/// `base64::engine::general_purpose::URL_SAFE_NO_PAD.encode` on sixteen bytes:
/// the text is a function of the bytes, and twenty-two characters long.
#[verifier::external_body]
pub(crate) fn encode_base64_url(bytes: &[u8; 16]) -> (text: String)
    ensures
        text@ == base64_url_text(bytes@),
        text@.len() == 22,
{
    base64::engine::general_purpose::URL_SAFE_NO_PAD.encode(bytes)
}

/// `sha2::Sha256::digest`: thirty-two bytes that are a function of the input.
#[verifier::external_body]
pub(crate) fn digest_sha256(bytes: &[u8]) -> (digest: [u8; 32])
    ensures
        digest@ == sha256(bytes@),
{
    sha2::Sha256::digest(bytes).into()
}

/// `uuid::Uuid::parse_str`: the identifier's bits, with the error dropped, are
/// a function of the text.
#[verifier::external_body]
pub(crate) fn parse_uuid(text: &str) -> (bits: Option<u128>)
    ensures
        bits == uuid_bits(text@),
{
    uuid::Uuid::parse_str(text).ok().map(|id| id.as_u128())
}

/// `serde_json::Value`'s `to_string`, of a string value: the JSON text is a
/// function of the string.
#[verifier::external_body]
pub(crate) fn quote_json(text: &str) -> (quoted: String)
    ensures
        quoted@ == json_string(text@),
{
    serde_json::Value::from(text).to_string()
}

/// The bytes that a header value may hold: all but the control characters,
/// tab aside.
pub open spec fn is_field_byte(byte: u8) -> bool {
    byte >= 32 && byte != 127 || byte == 9
}

/// Whether a text can be a header value.
pub open spec fn is_field_value(text: Seq<char>) -> bool {
    forall|i: int|
        0 <= i < encode_utf8(text).len() ==> is_field_byte(#[trigger] encode_utf8(text)[i])
}

/// `axum::http::HeaderValue::from_str`: it accepts a text whose bytes are all
/// ones that a header value may hold, and no other.
#[verifier::external_body]
pub(crate) fn accepts_header_value(text: &str) -> (accepted: bool)
    ensures
        accepted == is_field_value(text@),
{
    axum::http::HeaderValue::from_str(text).is_ok()
}

} // verus!
