//! How bytes, numbers, requests and tokens are written.
//!
//! Each law says what a text denotes by what it is made of, character by
//! character, so that readers and writers are held to the same format.

use vstd::prelude::*;
use vstd::utf8::*;

use crate::canonical::{as_unsigned, big_endian, canonical_bytes, field};
use crate::decimal::{all_digits, decimal_value, digits_value, signed, unsigned_part};
use crate::outside::{base64_bytes, base64_text};
use crate::reply::{error_json, Status};
use crate::session::{
    after_dot, before_dot, hex_bytes, hex_text, hex_value, token_parts, token_text,
};
use crate::text::{first_position, first_position_is, utf8_injective};
use crate::users::Role;

verus! {

// ---------------------------------------------------------------------------
// Hexadecimal
// ---------------------------------------------------------------------------

/// The sixteen digits, in lowercase.
pub open spec fn lowercase_digits() -> Seq<char> {
    seq!['0', '1', '2', '3', '4', '5', '6', '7', '8', '9', 'a', 'b', 'c', 'd', 'e', 'f']
}

/// The sixteen digits, in uppercase.
pub open spec fn uppercase_digits() -> Seq<char> {
    seq!['0', '1', '2', '3', '4', '5', '6', '7', '8', '9', 'A', 'B', 'C', 'D', 'E', 'F']
}

/// Whether a character is the digit of this value, in either case.
pub open spec fn is_digit_of(ch: char, value: int) -> bool {
    0 <= value < 16 && (ch == lowercase_digits()[value] || ch == uppercase_digits()[value])
}

/// Whether a text spells these bytes: two digits for each, in order, the more
/// significant one first, and nothing else.
pub open spec fn spells(text: Seq<char>, bytes: Seq<u8>) -> bool {
    text.len() == 2 * bytes.len() && forall|i: int|
        0 <= i < bytes.len() ==> is_digit_of(text[2 * i], (#[trigger] bytes[i]) as int / 16)
            && is_digit_of(text[2 * i + 1], bytes[i] as int % 16)
}

/// Bytes are written in lowercase digits, and so that they spell the bytes.
pub proof fn written_bytes_are_spelled(bytes: Seq<u8>)
    ensures
        spells(hex_text(bytes), bytes),
        forall|i: int|
            0 <= i < hex_text(bytes).len() ==> lowercase_digits().contains(
                #[trigger] hex_text(bytes)[i],
            ),
{
    let text = hex_text(bytes);
    assert forall|i: int| 0 <= i < bytes.len() implies is_digit_of(
        text[2 * i],
        (#[trigger] bytes[i]) as int / 16,
    ) && is_digit_of(text[2 * i + 1], bytes[i] as int % 16) by {
        assert((2 * i) / 2 == i && (2 * i + 1) / 2 == i);
        assert((2 * i) % 2 == 0 && (2 * i + 1) % 2 == 1);
        assert(0 <= bytes[i] as int / 16 < 16 && 0 <= bytes[i] as int % 16 < 16);
    }
    assert forall|i: int| 0 <= i < text.len() implies lowercase_digits().contains(
        #[trigger] text[i],
    ) by {
        let byte = bytes[i / 2];
        let value = if i % 2 == 0 {
            byte as int / 16
        } else {
            byte as int % 16
        };
        assert(0 <= value < 16);
        assert(text[i] == lowercase_digits()[value]);
    }
}

proof fn ascii_of(bytes: Seq<u8>, text: Seq<char>)
    requires
        encode_utf8(text) == bytes,
        forall|i: int| 0 <= i < bytes.len() ==> #[trigger] bytes[i] < 128,
    ensures
        text.len() == bytes.len(),
        forall|i: int| 0 <= i < text.len() ==> #[trigger] text[i] as int == bytes[i] as int,
{
    let plain = Seq::new(bytes.len(), |i: int| bytes[i] as char);
    assert(is_ascii_chars(plain));
    is_ascii_chars_encode_utf8(plain);
    assert(encode_utf8(plain) =~= bytes);
    utf8_injective(plain, text);
}

/// Hexadecimal text is read as the bytes that it spells, in either case, however
/// many they are; any other text is no hexadecimal.
pub proof fn texts_are_read_as_the_bytes_they_spell(text: Seq<char>, bytes: Seq<u8>)
    ensures
        hex_bytes(encode_utf8(text)) == Some(bytes) <==> spells(text, bytes),
{
    let encoded = encode_utf8(text);
    if spells(text, bytes) {
        assert forall|i: int| 0 <= i < text.len() implies '\u{0}' <= #[trigger] text[i]
            <= '\u{7f}' by {
            let k = i / 2;
            assert(is_digit_of(text[2 * k], bytes[k] as int / 16));
            assert(is_digit_of(text[2 * k + 1], bytes[k] as int % 16));
            assert(i == 2 * k || i == 2 * k + 1);
        }
        assert(is_ascii_chars(text));
        is_ascii_chars_encode_utf8(text);
        assert(encoded =~= Seq::new(text.len(), |i: int| text[i] as u8));
        digits_are_valued(text, bytes);
        assert forall|i: int| 0 <= i < encoded.len() implies hex_value(
            #[trigger] encoded[i],
        ) is Some by {
            let k = i / 2;
            assert(is_digit_of(text[2 * k], bytes[k] as int / 16));
            assert(i == 2 * k || i == 2 * k + 1);
        }
        assert(hex_bytes(encoded)->0 =~= bytes);
    }
    if hex_bytes(encoded) == Some(bytes) {
        assert forall|i: int| 0 <= i < encoded.len() implies #[trigger] encoded[i] < 128 by {
            assert(hex_value(encoded[i]) is Some);
        }
        ascii_of(encoded, text);
        assert forall|i: int| 0 <= i < bytes.len() implies is_digit_of(
            text[2 * i],
            (#[trigger] bytes[i]) as int / 16,
        ) && is_digit_of(text[2 * i + 1], bytes[i] as int % 16) by {
            assert(hex_value(encoded[2 * i]) is Some);
            assert(hex_value(encoded[2 * i + 1]) is Some);
            let high = hex_value(encoded[2 * i])->0;
            let low = hex_value(encoded[2 * i + 1])->0;
            assert(text[2 * i] as int == encoded[2 * i] as int);
            assert(text[2 * i + 1] as int == encoded[2 * i + 1] as int);
            assert(bytes[i] == (high * 16 + low) as u8);
            assert(bytes[i] as int / 16 == high && bytes[i] as int % 16 == low);
            valued_digit(text[2 * i]);
            valued_digit(text[2 * i + 1]);
        }
    }
}

proof fn valued_digit(ch: char)
    requires
        (ch as int) < 128,
    ensures
        hex_value(ch as u8) matches Some(value) ==> value < 16 && is_digit_of(
            ch,
            value as int,
        ),
{
}

proof fn digits_are_valued(text: Seq<char>, bytes: Seq<u8>)
    requires
        spells(text, bytes),
    ensures
        forall|i: int|
            0 <= i < bytes.len() ==> hex_value(text[2 * i] as u8) == Some(
                ((#[trigger] bytes[i]) as int / 16) as u8,
            ) && hex_value(text[2 * i + 1] as u8) == Some(
                (bytes[i] as int % 16) as u8,
            ),
{
    assert forall|i: int| 0 <= i < bytes.len() implies hex_value(
        text[2 * i] as u8,
    ) == Some(((#[trigger] bytes[i]) as int / 16) as u8) && hex_value(
        text[2 * i + 1] as u8,
    ) == Some((bytes[i] as int % 16) as u8) by {
        assert(is_digit_of(text[2 * i], bytes[i] as int / 16));
        digit_is_valued(text[2 * i], bytes[i] as int / 16);
        digit_is_valued(text[2 * i + 1], bytes[i] as int % 16);
    }
}

proof fn digit_is_valued(ch: char, value: int)
    requires
        is_digit_of(ch, value),
    ensures
        (ch as int) < 128,
        hex_value(ch as u8) == Some(value as u8),
{
}

// ---------------------------------------------------------------------------
// Decimal
// ---------------------------------------------------------------------------

/// A natural number as it is written: its digits without leading zeros.
pub open spec fn written_natural(value: nat) -> Seq<char>
    decreases value,
{
    if value < 10 {
        seq![('0' as int + value) as char]
    } else {
        written_natural(value / 10).push(('0' as int + value % 10) as char)
    }
}

/// A whole number as it is written, with a minus sign before its digits if it is
/// negative.
pub open spec fn written_number(value: int) -> Seq<char> {
    if value < 0 {
        seq!['-'] + written_natural((-value) as nat)
    } else {
        written_natural(value as nat)
    }
}

proof fn natural_reads_back(value: nat)
    ensures
        written_natural(value).len() > 0,
        all_digits(written_natural(value)),
        digits_value(written_natural(value)) == value,
    decreases value,
{
    let text = written_natural(value);
    if value < 10 {
        assert(text.drop_last() =~= Seq::<char>::empty());
        assert(digits_value(text.drop_last()) == 0);
    } else {
        natural_reads_back(value / 10);
        assert(text.drop_last() =~= written_natural(value / 10));
        assert(text.last() as int - '0' as int == value % 10);
        assert forall|i: int| 0 <= i < text.len() implies '0' <= #[trigger] text[i] <= '9' by {
            if i < text.len() - 1 {
                assert(text[i] == written_natural(value / 10)[i]);
            }
        }
    }
}

/// A number that is written out is read as that number if sixty-four bits can
/// hold it, and not at all otherwise; a plus sign changes nothing.
pub proof fn written_numbers_read_back(value: int)
    ensures
        i64::MIN <= value <= i64::MAX ==> decimal_value(written_number(value)) == Some(
            value as i64,
        ),
        !(i64::MIN <= value <= i64::MAX) ==> decimal_value(written_number(value)) is None,
        value >= 0 ==> decimal_value(seq!['+'] + written_number(value)) == decimal_value(
            written_number(value),
        ),
{
    let magnitude = if value < 0 {
        (-value) as nat
    } else {
        value as nat
    };
    let digits = written_natural(magnitude);
    natural_reads_back(magnitude);
    assert('0' <= digits[0] <= '9');
    assert((seq!['-'] + digits).drop_first() =~= digits);
    assert((seq!['+'] + digits).drop_first() =~= digits);
    assert((seq!['-'] + digits)[0] == '-' && (seq!['+'] + digits)[0] == '+');
}

/// Zeros before the first digit change nothing, with a sign and without one.
pub proof fn leading_zeros_change_nothing(digits: Seq<char>)
    requires
        digits.len() > 0,
        all_digits(digits),
    ensures
        decimal_value(seq!['0'] + digits) == decimal_value(digits),
        decimal_value(seq!['-', '0'] + digits) == decimal_value(seq!['-'] + digits),
        decimal_value(seq!['+', '0'] + digits) == decimal_value(seq!['+'] + digits),
{
    let longer = seq!['0'] + digits;
    zero_adds_nothing(digits);
    assert(all_digits(longer)) by {
        assert forall|i: int| 0 <= i < longer.len() implies '0' <= #[trigger] longer[i] <= '9' by {
            if i > 0 {
                assert(longer[i] == digits[i - 1]);
            }
        }
    }
    assert('0' <= digits[0] <= '9');
    assert((seq!['-', '0'] + digits).drop_first() =~= longer);
    assert((seq!['+', '0'] + digits).drop_first() =~= longer);
    assert((seq!['-'] + digits).drop_first() =~= digits);
    assert((seq!['+'] + digits).drop_first() =~= digits);
    assert((seq!['-', '0'] + digits)[0] == '-' && (seq!['-'] + digits)[0] == '-');
    assert((seq!['+', '0'] + digits)[0] == '+' && (seq!['+'] + digits)[0] == '+');
}

proof fn zero_adds_nothing(digits: Seq<char>)
    ensures
        digits_value(seq!['0'] + digits) == digits_value(digits),
    decreases digits.len(),
{
    let longer = seq!['0'] + digits;
    if digits.len() > 0 {
        zero_adds_nothing(digits.drop_last());
        assert(longer.drop_last() =~= seq!['0'] + digits.drop_last());
        assert(longer.last() == digits.last());
    } else {
        assert(longer.drop_last() =~= Seq::<char>::empty());
        assert(digits_value(longer.drop_last()) == 0);
        assert(longer.last() == '0');
    }
}

/// Only digits, after a sign at most, are a number.
pub proof fn only_digits_are_numbers(text: Seq<char>)
    ensures
        decimal_value(text) is Some ==> text.len() > 0 && ('0' <= text.last() <= '9') && forall|
            i: int,
        |
            1 <= i < text.len() ==> '0' <= #[trigger] text[i] <= '9',
        decimal_value(text) is Some ==> text[0] == '-' || text[0] == '+' || '0' <= text[0] <= '9',
{
    if decimal_value(text) is Some {
        let digits = unsigned_part(text);
        assert forall|i: int| 1 <= i < text.len() implies '0' <= #[trigger] text[i] <= '9' by {
            if signed(text) {
                assert(digits[i - 1] == text[i]);
            } else {
                assert(digits[i] == text[i]);
            }
        }
        assert(digits.last() == text.last());
        assert('0' <= digits[digits.len() - 1] <= '9');
        if !signed(text) {
            assert(digits[0] == text[0]);
        }
    }
}

// ---------------------------------------------------------------------------
// Canonical requests
// ---------------------------------------------------------------------------

/// The eight bytes of a number, most significant first.
pub open spec fn eight_bytes_of(value: int) -> Seq<u8> {
    seq![
        (value / 0x100_0000_0000_0000 % 256) as u8,
        (value / 0x1_0000_0000_0000 % 256) as u8,
        (value / 0x100_0000_0000 % 256) as u8,
        (value / 0x1_0000_0000 % 256) as u8,
        (value / 0x100_0000 % 256) as u8,
        (value / 0x1_0000 % 256) as u8,
        (value / 0x100 % 256) as u8,
        (value % 256) as u8,
    ]
}

/// Bytes behind their length in eight bytes.
pub open spec fn behind_its_length(bytes: Seq<u8>) -> Seq<u8> {
    eight_bytes_of(bytes.len() as int) + bytes
}

/// What a client signs is made of the whole of each part, in this order: the
/// tag, the method, the path with its query, the digest of the body, the client,
/// the timestamp in eight bytes of two's complement, and the nonce, each behind
/// its length in eight bytes.
pub proof fn canonical_requests_hold_every_part(
    method: Seq<char>,
    path: Seq<char>,
    body_sha256: Seq<u8>,
    client_id: Seq<char>,
    timestamp: i64,
    nonce: Seq<char>,
)
    ensures
        canonical_bytes(method, path, body_sha256, client_id, timestamp, nonce)
            == behind_its_length(encode_utf8("wyrtloom-client-auth-v1"@)) + behind_its_length(
            encode_utf8(method),
        ) + behind_its_length(encode_utf8(path)) + behind_its_length(body_sha256)
            + behind_its_length(encode_utf8(client_id)) + behind_its_length(
            eight_bytes_of(
                if timestamp < 0 {
                    timestamp + 0x1_0000_0000_0000_0000
                } else {
                    timestamp as int
                },
            ),
        ) + behind_its_length(encode_utf8(nonce)),
{
    fields_are_behind_their_length(encode_utf8("wyrtloom-client-auth-v1"@));
    fields_are_behind_their_length(encode_utf8(method));
    fields_are_behind_their_length(encode_utf8(path));
    fields_are_behind_their_length(body_sha256);
    fields_are_behind_their_length(encode_utf8(client_id));
    eight_bytes_are_big_endian(as_unsigned(timestamp));
    fields_are_behind_their_length(big_endian(as_unsigned(timestamp), 8));
    fields_are_behind_their_length(encode_utf8(nonce));
    assert(canonical_bytes(method, path, body_sha256, client_id, timestamp, nonce)
        =~= behind_its_length(encode_utf8("wyrtloom-client-auth-v1"@)) + behind_its_length(
        encode_utf8(method),
    ) + behind_its_length(encode_utf8(path)) + behind_its_length(body_sha256) + behind_its_length(
        encode_utf8(client_id),
    ) + behind_its_length(eight_bytes_of(as_unsigned(timestamp) as int)) + behind_its_length(
        encode_utf8(nonce),
    ));
}

proof fn eight_bytes_are_big_endian(value: nat)
    ensures
        big_endian(value, 8) == eight_bytes_of(value as int),
{
    reveal_with_fuel(big_endian, 9);
    assert(value / 256 / 256 == value / 0x1_0000);
    assert(value / 256 / 256 / 256 == value / 0x100_0000);
    assert(value / 256 / 256 / 256 / 256 == value / 0x1_0000_0000);
    assert(value / 256 / 256 / 256 / 256 / 256 == value / 0x100_0000_0000);
    assert(value / 256 / 256 / 256 / 256 / 256 / 256 == value / 0x1_0000_0000_0000);
    assert(value / 256 / 256 / 256 / 256 / 256 / 256 / 256 == value / 0x100_0000_0000_0000);
    assert(big_endian(value, 8) =~= eight_bytes_of(value as int));
}

proof fn fields_are_behind_their_length(bytes: Seq<u8>)
    ensures
        field(bytes) == behind_its_length(bytes),
{
    eight_bytes_are_big_endian(bytes.len());
}

// ---------------------------------------------------------------------------
// Session tokens
// ---------------------------------------------------------------------------

/// Whether a token is made of these halves, with its first dot between them.
pub open spec fn is_token_of(token: Seq<char>, encoded: Seq<char>, spelled: Seq<char>) -> bool {
    token == encoded + seq!['.'] + spelled && !encoded.contains('.')
}

/// A token is read as the payload and the stamp that it is made of, all of both;
/// any other text is no token.
pub proof fn tokens_are_read_as_what_they_are_made_of(
    token: Seq<char>,
    encoded: Seq<char>,
    spelled: Seq<char>,
    payload: Seq<u8>,
    stamp: Seq<u8>,
)
    ensures
        is_token_of(token, encoded, spelled) ==> (token_parts(token) == Some((payload, stamp)) <==> {
            &&& base64_bytes(encoded) == Some(payload)
            &&& spells(spelled, stamp)
            &&& stamp.len() == 32
        }),
        token_parts(token) is Some ==> exists|encoded: Seq<char>, spelled: Seq<char>| #[trigger]
            is_token_of(token, encoded, spelled),
        token_text(payload, stamp) == base64_text(payload) + seq!['.'] + hex_text(stamp),
{
    assert(base64_text(payload).push('.') =~= base64_text(payload) + seq!['.']);
    if is_token_of(token, encoded, spelled) {
        let dot = encoded.len();
        assert forall|i: int| 0 <= i < dot implies token[i] != '.' by {
            assert(token[i] == encoded[i]);
            assert(encoded.contains(encoded[i]));
        }
        assert(token[dot as int] == '.');
        first_position_is(token, '.', dot);
        assert(before_dot(token) =~= encoded);
        assert(after_dot(token) =~= spelled);
        texts_are_read_as_the_bytes_they_spell(spelled, stamp);
        if hex_bytes(encode_utf8(spelled)) is Some {
            texts_are_read_as_the_bytes_they_spell(spelled, hex_bytes(encode_utf8(spelled))->0);
        }
    }
    if token_parts(token) is Some {
        first_dot(token);
        let before = before_dot(token);
        let behind = after_dot(token);
        assert(token =~= before + seq!['.'] + behind);
        assert(is_token_of(token, before, behind));
    }
}

proof fn first_dot(chars: Seq<char>)
    ensures
        first_position(chars, '.') <= chars.len(),
        first_position(chars, '.') < chars.len() ==> chars[first_position(chars, '.') as int]
            == '.',
        !chars.take(first_position(chars, '.') as int).contains('.'),
    decreases chars.len(),
{
    let at = first_position(chars, '.');
    if chars.len() > 0 && chars[0] != '.' {
        let rest = chars.drop_first();
        first_dot(rest);
        let before = chars.take(at as int);
        if before.contains('.') {
            let k = choose|k: int| 0 <= k < before.len() && before[k] == '.';
            assert(rest.take(first_position(rest, '.') as int)[k - 1] == '.');
        }
    }
}

// ---------------------------------------------------------------------------
// Answers
// ---------------------------------------------------------------------------

/// The statuses are sent under their HTTP codes.
pub proof fn statuses_have_their_codes(status: Status)
    ensures
        status.spec_code() == 200 <==> status is Success,
        status.spec_code() == 201 <==> status is Created,
        status.spec_code() == 400 <==> status is BadRequest,
        status.spec_code() == 401 <==> status is Unauthorized,
        status.spec_code() == 403 <==> status is Forbidden,
        status.spec_code() == 404 <==> status is NotFound,
        status.spec_code() == 405 <==> status is MethodNotAllowed,
        status.spec_code() == 409 <==> status is Conflict,
        status.spec_code() == 413 <==> status is PayloadTooLarge,
        status.spec_code() == 429 <==> status is TooManyRequests,
        status.spec_code() == 500 <==> status is InternalServerError,
        status.spec_code() == 503 <==> status is ServiceUnavailable,
{
}

/// The roles are named as the API documents them.
pub proof fn roles_have_their_documented_names(role: Role)
    ensures
        role.spec_name() == match role {
            Role::Viewer => "Viewer"@,
            Role::Operator => "Operator"@,
            Role::Admin => "Admin"@,
        },
{
}

/// An error body is an object with the message, whole, under `error`.
pub proof fn error_bodies_hold_the_message(quoted: Seq<char>)
    ensures
        error_json(quoted).len() == quoted.len() + 10,
        error_json(quoted).take(9) == "{\"error\":"@,
        error_json(quoted).subrange(9, 9 + quoted.len() as int) == quoted,
        error_json(quoted).last() == '}',
{
    reveal_strlit("{\"error\":");
    reveal_strlit("}");
    assert(error_json(quoted).take(9) =~= "{\"error\":"@);
    assert(error_json(quoted).subrange(9, 9 + quoted.len() as int) =~= quoted);
}

} // verus!
