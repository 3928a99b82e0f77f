//! Session-token framing.
//!
//! A session token is `base64(payload_json) + "." + hex(stamp)`, where the
//! stamp is the security module's MAC over the exact `payload_json` bytes. The
//! payload carries the user id, the roles at mint time, the absolute expiry,
//! and a per-session nonce used for revocation.
//!
//! The token's `roles` are advisory. On every request the user is fetched from
//! the directory again, and the current roles and `active` flag decide.

use vstd::prelude::*;
use vstd::string::*;
use vstd::utf8::*;

use crate::outside::{base64_bytes, base64_len, base64_text, decode_base64, encode_base64};
use crate::text::{find_char, first_position, first_position_is, to_chars, to_text};
use crate::users::Role;

verus! {

/// The decoded session payload.
#[derive(Debug, Clone)]
pub struct SessionPayload {
    pub user_id: String,
    pub roles: Vec<Role>,
    pub exp_unix: i64,
    pub nonce: String,
}

/// A session payload as contracts see it.
pub struct SessionPayloadView {
    pub user_id: Seq<char>,
    pub roles: Seq<Role>,
    pub exp_unix: i64,
    pub nonce: Seq<char>,
}

impl View for SessionPayload {
    type V = SessionPayloadView;

    open spec fn view(&self) -> SessionPayloadView {
        SessionPayloadView {
            user_id: self.user_id@,
            roles: self.roles@,
            exp_unix: self.exp_unix,
            nonce: self.nonce@,
        }
    }
}

/// A MAC over a byte string.
#[derive(Debug, Clone, Copy, PartialEq, Eq)]
pub struct Stamp(pub [u8; 32]);

/// Why a token has no structure to check.
#[derive(Debug, Clone, Copy, PartialEq, Eq, Structural)]
pub enum TokenError {
    Malformed,
}

/// The lowercase hexadecimal digit of a value below sixteen.
pub open spec fn hex_digit(value: int) -> char {
    if value < 10 {
        ('0' as int + value) as char
    } else {
        ('a' as int + value - 10) as char
    }
}

/// The value of a hexadecimal digit of either case.
pub open spec fn hex_value(byte: u8) -> Option<u8> {
    if '0' as u8 <= byte <= '9' as u8 {
        Some((byte - '0' as u8) as u8)
    } else if 'a' as u8 <= byte <= 'f' as u8 {
        Some((byte - 'a' as u8 + 10) as u8)
    } else if 'A' as u8 <= byte <= 'F' as u8 {
        Some((byte - 'A' as u8 + 10) as u8)
    } else {
        None
    }
}

/// Two digits for each byte, high half first.
pub open spec fn hex_text(bytes: Seq<u8>) -> Seq<char> {
    Seq::new(
        2 * bytes.len(),
        |i: int|
            if i % 2 == 0 {
                hex_digit(bytes[i / 2] as int / 16)
            } else {
                hex_digit(bytes[i / 2] as int % 16)
            },
    )
}

/// Whether `text` is an even number of hexadecimal digits.
pub open spec fn is_hex(text: Seq<u8>) -> bool {
    text.len() % 2 == 0 && forall|i: int| 0 <= i < text.len() ==> hex_value(#[trigger] text[i]) is Some
}

/// The bytes that pairs of hexadecimal digits denote.
pub open spec fn hex_bytes(text: Seq<u8>) -> Option<Seq<u8>> {
    if is_hex(text) {
        Some(
            Seq::new(
                text.len() / 2,
                |i: int| (hex_value(text[2 * i])->0 * 16 + hex_value(text[2 * i + 1])->0) as u8,
            ),
        )
    } else {
        None
    }
}

fn digit_of(value: u8) -> (digit: char)
    requires
        value < 16,
    ensures
        digit == hex_digit(value as int),
{
    if value < 10 {
        (('0' as u8) + value) as char
    } else {
        (('a' as u8) + (value - 10)) as char
    }
}

fn value_of(byte: u8) -> (value: Option<u8>)
    ensures
        value == hex_value(byte),
        value is Some ==> value->0 < 16,
{
    if '0' as u8 <= byte && byte <= '9' as u8 {
        Some(byte - '0' as u8)
    } else if 'a' as u8 <= byte && byte <= 'f' as u8 {
        Some(byte - 'a' as u8 + 10)
    } else if 'A' as u8 <= byte && byte <= 'F' as u8 {
        Some(byte - 'A' as u8 + 10)
    } else {
        None
    }
}

/// Encodes bytes as lowercase hexadecimal.
pub fn hex(bytes: &[u8]) -> (text: String)
    ensures
        text@ == hex_text(bytes@),
{
    let mut text = String::new();
    let mut i: usize = 0;
    while i < bytes.len()
        invariant
            i <= bytes@.len(),
            text@ =~= hex_text(bytes@).take(2 * i),
        decreases bytes@.len() - i,
    {
        text.push(digit_of(bytes[i] / 16));
        text.push(digit_of(bytes[i] % 16));
        assert((2 * i + 1) / 2 == i && (2 * i) % 2 == 0 && (2 * i + 1) % 2 == 1);
        i += 1;
    }
    text
}

/// Decodes hexadecimal of either case; `None` on an odd length or any byte
/// that is no hexadecimal digit.
pub fn hex_decode(text: &str) -> (bytes: Option<Vec<u8>>)
    ensures
        bytes is Some <==> hex_bytes(encode_utf8(text@)) is Some,
        bytes is Some ==> bytes->0@ == hex_bytes(encode_utf8(text@))->0,
{
    let source = text.as_bytes();
    if source.len() % 2 != 0 {
        return None;
    }
    let mut bytes: Vec<u8> = Vec::new();
    let mut i: usize = 0;
    while i < source.len()
        invariant
            i <= source@.len(),
            i % 2 == 0,
            source@.len() % 2 == 0,
            source@ == encode_utf8(text@),
            forall|j: int| 0 <= j < i ==> hex_value(#[trigger] source@[j]) is Some,
            bytes@.len() == i / 2,
            forall|k: int|
                0 <= k < i / 2 ==> #[trigger] bytes@[k] == (hex_value(source@[2 * k])->0 * 16
                    + hex_value(source@[2 * k + 1])->0) as u8,
        decreases source@.len() - i,
    {
        let high = match value_of(source[i]) {
            Some(value) => value,
            None => {
                return None;
            },
        };
        let low = match value_of(source[i + 1]) {
            Some(value) => value,
            None => {
                return None;
            },
        };
        bytes.push(high * 16 + low);
        i += 2;
    }
    assert(bytes@ =~= hex_bytes(source@)->0);
    Some(bytes)
}

/// Decoding undoes encoding.
pub proof fn hex_round_trip(bytes: Seq<u8>)
    ensures
        hex_bytes(encode_utf8(hex_text(bytes))) == Some(bytes),
        !hex_text(bytes).contains('.'),
{
    let text = hex_text(bytes);
    assert forall|i: int| 0 <= i < text.len() implies {
        &&& ('0' <= #[trigger] text[i] <= '9' || 'a' <= text[i] <= 'f')
        &&& hex_value(text[i] as u8) == Some(
            (if i % 2 == 0 {
                bytes[i / 2] / 16
            } else {
                bytes[i / 2] % 16
            }),
        )
    } by {
        let byte = bytes[i / 2];
        assert(0 <= byte / 16 < 16 && 0 <= byte % 16 < 16);
    }
    assert(is_ascii_chars(text));
    is_ascii_chars_encode_utf8(text);
    let encoded = encode_utf8(text);
    assert(encoded =~= Seq::new(text.len(), |i: int| text[i] as u8));
    assert forall|i: int| 0 <= i < encoded.len() implies hex_value(#[trigger] encoded[i]) is Some by {
        assert(encoded[i] == text[i] as u8);
    }
    assert forall|k: int| 0 <= k < bytes.len() implies #[trigger] hex_bytes(encoded)->0[k] == bytes[k] by {
        assert(encoded[2 * k] == text[2 * k] as u8);
        assert(encoded[2 * k + 1] == text[2 * k + 1] as u8);
        assert((2 * k) / 2 == k && (2 * k + 1) / 2 == k);
        assert((2 * k) % 2 == 0 && (2 * k + 1) % 2 == 1);
    }
    assert(hex_bytes(encoded)->0 =~= bytes);
    assert(!text.contains('.'));
}

/// The token of a payload and its stamp.
pub open spec fn token_text(payload: Seq<u8>, stamp: Seq<u8>) -> Seq<char> {
    base64_text(payload).push('.') + hex_text(stamp)
}

/// The text before the first dot, if there is a dot.
pub open spec fn before_dot(token: Seq<char>) -> Seq<char> {
    token.take(first_position(token, '.') as int)
}

/// The text after the first dot.
pub open spec fn after_dot(token: Seq<char>) -> Seq<char> {
    token.skip(first_position(token, '.') as int + 1)
}

/// The stamp that a token's second half spells: hexadecimal of thirty-two bytes.
pub open spec fn stamp_bytes(stamp_hex: Seq<char>) -> Option<Seq<u8>> {
    match hex_bytes(encode_utf8(stamp_hex)) {
        Some(bytes) => if bytes.len() == 32 {
            Some(bytes)
        } else {
            None
        },
        None => None,
    }
}

/// The payload and stamp of a well-formed token.
pub open spec fn token_parts(token: Seq<char>) -> Option<(Seq<u8>, Seq<u8>)> {
    if first_position(token, '.') == token.len() {
        None
    } else {
        match (base64_bytes(before_dot(token)), stamp_bytes(after_dot(token))) {
            (Some(payload), Some(stamp)) => Some((payload, stamp)),
            _ => None,
        }
    }
}

/// Whether base64 text of these bytes decodes to them and holds no dot, as
/// encoding promises of all bytes whose text can be allocated.
pub open spec fn base64_reads_back(bytes: Seq<u8>) -> bool {
    base64_bytes(base64_text(bytes)) == Some(bytes) && !base64_text(bytes).contains('.')
}

/// A token of any payload and stamp parses back to exactly these.
pub proof fn tokens_read_back(payload: Seq<u8>, stamp: Seq<u8>)
    requires
        base64_reads_back(payload),
        stamp.len() == 32,
    ensures
        token_parts(token_text(payload, stamp)) == Some((payload, stamp)),
{
    let encoded = base64_text(payload);
    let token = token_text(payload, stamp);
    let dot = encoded.len();
    hex_round_trip(stamp);
    assert forall|i: int| 0 <= i < dot implies token[i] != '.' by {
        assert(token[i] == encoded[i]);
        assert(encoded.contains(encoded[i]));
    }
    first_position_is(token, '.', dot);
    assert(before_dot(token) =~= encoded);
    assert(after_dot(token) =~= hex_text(stamp));
}

/// Joins the encoded payload and the stamp with a dot.
pub fn join_token(encoded_payload: &str, stamp: &Stamp) -> (token: String)
    ensures
        token@ == encoded_payload@.push('.') + hex_text(stamp.0@),
{
    let mut token = encoded_payload.to_owned();
    token.push('.');
    token.append(hex(stamp.0.as_slice()).as_str());
    token
}

/// Splits a token at its first dot; `None` when it has none.
pub fn split_token(token: &str) -> (halves: Option<(String, String)>)
    ensures
        halves is Some <==> token@.contains('.'),
        halves is None <==> first_position(token@, '.') == token@.len(),
        halves matches Some((encoded, stamp_hex)) ==> encoded@ == before_dot(token@) && stamp_hex@
            == after_dot(token@),
{
    let chars = to_chars(token);
    let dot = find_char(&chars, '.');
    if dot == chars.len() {
        proof {
            no_needle(token@, '.');
        }
        return None;
    }
    assert(token@[dot as int] == '.');
    let encoded_payload = to_text(&chars, 0, dot);
    let stamp_hex = to_text(&chars, dot + 1, chars.len());
    assert(encoded_payload@ =~= before_dot(token@));
    assert(stamp_hex@ =~= after_dot(token@));
    Some((encoded_payload, stamp_hex))
}

proof fn no_needle(chars: Seq<char>, needle: char)
    requires
        first_position(chars, needle) == chars.len(),
    ensures
        !chars.contains(needle),
    decreases chars.len(),
{
    if chars.len() > 0 {
        no_needle(chars.drop_first(), needle);
        if chars.contains(needle) {
            let i = choose|i: int| 0 <= i < chars.len() && chars[i] == needle;
            assert(chars.drop_first()[i - 1] == needle);
        }
    }
}

/// Reads the stamp from a token's second half.
pub fn read_stamp(stamp_hex: &str) -> (stamp: Option<Stamp>)
    ensures
        stamp is Some <==> stamp_bytes(stamp_hex@) is Some,
        stamp matches Some(found) ==> found.0@ == stamp_bytes(stamp_hex@)->0,
{
    match hex_decode(stamp_hex) {
        Some(bytes) => {
            if bytes.len() != 32 {
                return None;
            }
            let mut array: [u8; 32] = [0; 32];
            let mut i: usize = 0;
            while i < 32
                invariant
                    i <= 32,
                    bytes@.len() == 32,
                    forall|j: int| 0 <= j < i ==> array@[j] == bytes@[j],
                decreases 32 - i,
            {
                array[i] = bytes[i];
                i += 1;
            }
            assert(array@ =~= bytes@);
            Some(Stamp(array))
        },
        None => None,
    }
}

/// Mints the token of `payload_json`, which `stamp` covers. The token parses
/// back to exactly these bytes and this stamp.
pub fn mint(payload_json: &[u8], stamp: &Stamp) -> (token: String)
    requires
        base64_len(payload_json@.len()) <= isize::MAX,
    ensures
        token@ == token_text(payload_json@, stamp.0@),
        token_parts(token@) == Some((payload_json@, stamp.0@)),
{
    let encoded = encode_base64(payload_json);
    let token = join_token(encoded.as_str(), stamp);
    proof {
        tokens_read_back(payload_json@, stamp.0@);
    }
    token
}

/// Parses a token into its payload bytes and its stamp. Neither the stamp's
/// validity, nor expiry, nor revocation is looked at.
pub fn parse(token: &str) -> (parts: Result<(Vec<u8>, Stamp), TokenError>)
    ensures
        parts is Ok <==> token_parts(token@) is Some,
        parts matches Ok((payload, stamp)) ==> (payload@, stamp.0@) == token_parts(token@)->0,
        parts is Err ==> parts->Err_0 == TokenError::Malformed,
{
    let (encoded_payload, stamp_hex) = match split_token(token) {
        Some(halves) => halves,
        None => {
            return Err(TokenError::Malformed);
        },
    };
    let payload_json = match decode_base64(encoded_payload.as_str()) {
        Some(bytes) => bytes,
        None => {
            return Err(TokenError::Malformed);
        },
    };
    match read_stamp(stamp_hex.as_str()) {
        Some(stamp) => Ok((payload_json, stamp)),
        None => Err(TokenError::Malformed),
    }
}

/// The payload, its exact bytes and the stamp of a token, given how payloads
/// are decoded.
pub open spec fn session_in(
    decode: spec_fn(Seq<u8>) -> Option<SessionPayloadView>,
    token: Seq<char>,
) -> Option<(SessionPayloadView, Seq<u8>, Seq<u8>)> {
    match token_parts(token) {
        Some((bytes, stamp)) => match decode(bytes) {
            Some(payload) => Some((payload, bytes, stamp)),
            None => None,
        },
        None => None,
    }
}

/// What a token is minted from comes back when it is read, whatever the payload
/// and whether or not it has expired: for any encoding that its decoding undoes
/// and any stamping, the token of an encoded payload under its stamp reads back
/// as the payload, the bytes that were stamped, and that stamp.
pub proof fn minted_sessions_read_back(
    encode: spec_fn(SessionPayloadView) -> Seq<u8>,
    decode: spec_fn(Seq<u8>) -> Option<SessionPayloadView>,
    stamping: spec_fn(Seq<u8>) -> Seq<u8>,
    payload: SessionPayloadView,
)
    requires
        decode(encode(payload)) == Some(payload),
        stamping(encode(payload)).len() == 32,
        base64_reads_back(encode(payload)),
    ensures
        session_in(decode, token_text(encode(payload), stamping(encode(payload)))) == Some(
            (payload, encode(payload), stamping(encode(payload))),
        ),
{
    tokens_read_back(encode(payload), stamping(encode(payload)));
}

} // verus!
