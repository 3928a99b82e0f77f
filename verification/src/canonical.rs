//! The canonical request bytes that a client signs.
//!
//! A domain tag and six fields, each written as an 8-byte big-endian length
//! followed by its bytes, so that no two requests share their bytes.

use vstd::prelude::*;
use vstd::string::*;
use vstd::utf8::*;

use crate::text::utf8_injective;

verus! {

/// The tag that opens every canonical request.
pub const DOMAIN_TAG: &'static str = "wyrtloom-client-auth-v1";

/// 256 to the power of `exponent`.
pub open spec fn byte_power(exponent: nat) -> nat
    decreases exponent,
{
    if exponent == 0 {
        1
    } else {
        256 * byte_power((exponent - 1) as nat)
    }
}

/// The `width` bytes of `value`, most significant first.
pub open spec fn big_endian(value: nat, width: nat) -> Seq<u8>
    decreases width,
{
    if width == 0 {
        Seq::empty()
    } else {
        big_endian(value / 256, (width - 1) as nat).push((value % 256) as u8)
    }
}

/// A field: its length in eight bytes, then its bytes.
pub open spec fn field(bytes: Seq<u8>) -> Seq<u8> {
    big_endian(bytes.len(), 8) + bytes
}

/// The two's-complement reading of a signed 64-bit value.
pub open spec fn as_unsigned(value: i64) -> nat {
    if value < 0 {
        (value + 0x1_0000_0000_0000_0000) as nat
    } else {
        value as nat
    }
}

/// The bytes a client signs for a request.
pub open spec fn canonical_bytes(
    method: Seq<char>,
    path: Seq<char>,
    body_sha256: Seq<u8>,
    client_id: Seq<char>,
    timestamp: i64,
    nonce: Seq<char>,
) -> Seq<u8> {
    field(encode_utf8(DOMAIN_TAG@)) + (field(encode_utf8(method)) + (field(encode_utf8(path)) + (field(
        body_sha256,
    ) + (field(encode_utf8(client_id)) + (field(big_endian(as_unsigned(timestamp), 8)) + field(
        encode_utf8(nonce),
    ))))))
}

proof fn big_endian_len(value: nat, width: nat)
    ensures
        big_endian(value, width).len() == width,
    decreases width,
{
    if width > 0 {
        big_endian_len(value / 256, (width - 1) as nat);
    }
}

proof fn big_endian_injective(left: nat, right: nat, width: nat)
    requires
        left < byte_power(width),
        right < byte_power(width),
        big_endian(left, width) == big_endian(right, width),
    ensures
        left == right,
    decreases width,
{
    if width > 0 {
        let rest = (width - 1) as nat;
        big_endian_len(left / 256, rest);
        big_endian_len(right / 256, rest);
        let a = big_endian(left / 256, rest);
        let b = big_endian(right / 256, rest);
        let ab = big_endian(left, width);
        let bb = big_endian(right, width);
        assert(a =~= ab.drop_last());
        assert(b =~= bb.drop_last());
        assert(ab.last() == (left % 256) as u8);
        assert(bb.last() == (right % 256) as u8);
        big_endian_injective(left / 256, right / 256, rest);
    }
}

proof fn eight_bytes()
    ensures
        byte_power(8) == 0x1_0000_0000_0000_0000,
{
    reveal_with_fuel(byte_power, 9);
}

proof fn field_injective(left: Seq<u8>, left_rest: Seq<u8>, right: Seq<u8>, right_rest: Seq<u8>)
    requires
        left.len() <= u64::MAX,
        right.len() <= u64::MAX,
        field(left) + left_rest == field(right) + right_rest,
    ensures
        left == right,
        left_rest == right_rest,
{
    let a = field(left) + left_rest;
    let b = field(right) + right_rest;
    big_endian_len(left.len(), 8);
    big_endian_len(right.len(), 8);
    assert(big_endian(left.len(), 8) =~= a.take(8));
    assert(big_endian(right.len(), 8) =~= b.take(8));
    eight_bytes();
    big_endian_injective(left.len(), right.len(), 8);
    let end = 8 + left.len() as int;
    assert(left =~= a.subrange(8, end));
    assert(right =~= b.subrange(8, end));
    assert(left_rest =~= a.skip(end));
    assert(right_rest =~= b.skip(end));
}

/// A signature binds unambiguously to its request: two requests with the same
/// canonical bytes agree in method, path, body digest, client, timestamp and
/// nonce.
pub proof fn canonical_bytes_unambiguous(
    method: Seq<char>,
    path: Seq<char>,
    body_sha256: Seq<u8>,
    client_id: Seq<char>,
    timestamp: i64,
    nonce: Seq<char>,
    other_method: Seq<char>,
    other_path: Seq<char>,
    other_body_sha256: Seq<u8>,
    other_client_id: Seq<char>,
    other_timestamp: i64,
    other_nonce: Seq<char>,
)
    requires
        encode_utf8(method).len() <= u64::MAX,
        encode_utf8(path).len() <= u64::MAX,
        body_sha256.len() <= u64::MAX,
        encode_utf8(client_id).len() <= u64::MAX,
        encode_utf8(nonce).len() <= u64::MAX,
        encode_utf8(other_method).len() <= u64::MAX,
        encode_utf8(other_path).len() <= u64::MAX,
        other_body_sha256.len() <= u64::MAX,
        encode_utf8(other_client_id).len() <= u64::MAX,
        encode_utf8(other_nonce).len() <= u64::MAX,
        canonical_bytes(method, path, body_sha256, client_id, timestamp, nonce) == canonical_bytes(
            other_method,
            other_path,
            other_body_sha256,
            other_client_id,
            other_timestamp,
            other_nonce,
        ),
    ensures
        method == other_method,
        path == other_path,
        body_sha256 == other_body_sha256,
        client_id == other_client_id,
        timestamp == other_timestamp,
        nonce == other_nonce,
{
    let tag = encode_utf8(DOMAIN_TAG@);
    let time = big_endian(as_unsigned(timestamp), 8);
    let other_time = big_endian(as_unsigned(other_timestamp), 8);
    let a6 = field(encode_utf8(nonce));
    let b6 = field(encode_utf8(other_nonce));
    let a5 = field(time) + a6;
    let b5 = field(other_time) + b6;
    let a4 = field(encode_utf8(client_id)) + a5;
    let b4 = field(encode_utf8(other_client_id)) + b5;
    let a3 = field(body_sha256) + a4;
    let b3 = field(other_body_sha256) + b4;
    let a2 = field(encode_utf8(path)) + a3;
    let b2 = field(encode_utf8(other_path)) + b3;
    let a1 = field(encode_utf8(method)) + a2;
    let b1 = field(encode_utf8(other_method)) + b2;
    assert(a1 =~= (field(tag) + a1).skip(field(tag).len() as int));
    assert(b1 =~= (field(tag) + b1).skip(field(tag).len() as int));
    field_injective(encode_utf8(method), a2, encode_utf8(other_method), b2);
    field_injective(encode_utf8(path), a3, encode_utf8(other_path), b3);
    field_injective(body_sha256, a4, other_body_sha256, b4);
    field_injective(encode_utf8(client_id), a5, encode_utf8(other_client_id), b5);
    big_endian_len(as_unsigned(timestamp), 8);
    big_endian_len(as_unsigned(other_timestamp), 8);
    field_injective(time, a6, other_time, b6);
    assert(a6 + Seq::<u8>::empty() =~= a6);
    assert(b6 + Seq::<u8>::empty() =~= b6);
    field_injective(encode_utf8(nonce), Seq::empty(), encode_utf8(other_nonce), Seq::empty());
    utf8_injective(method, other_method);
    utf8_injective(path, other_path);
    utf8_injective(client_id, other_client_id);
    utf8_injective(nonce, other_nonce);
    eight_bytes();
    big_endian_injective(as_unsigned(timestamp), as_unsigned(other_timestamp), 8);
}

fn push_big_endian(out: &mut Vec<u8>, value: u64)
    ensures
        final(out)@ == old(out)@ + big_endian(value as nat, 8),
{
    let ghost start = out@;
    out.push((value / 0x100_0000_0000_0000) as u8);
    out.push((value / 0x1_0000_0000_0000 % 256) as u8);
    out.push((value / 0x100_0000_0000 % 256) as u8);
    out.push((value / 0x1_0000_0000 % 256) as u8);
    out.push((value / 0x100_0000 % 256) as u8);
    out.push((value / 0x1_0000 % 256) as u8);
    out.push((value / 0x100 % 256) as u8);
    out.push((value % 256) as u8);
    proof {
        reveal_with_fuel(big_endian, 9);
        assert(out@ =~= start + big_endian(value as nat, 8));
    }
}

fn push_field(out: &mut Vec<u8>, bytes: &[u8])
    ensures
        final(out)@ == old(out)@ + field(bytes@),
{
    let ghost start = out@;
    push_big_endian(out, bytes.len() as u64);
    out.extend_from_slice(bytes);
    assert(out@ =~= start + field(bytes@));
}

/// Builds the canonical request bytes.
pub fn canonical_request(
    method: &str,
    path: &str,
    body_sha256: &[u8],
    client_id: &str,
    timestamp: i64,
    nonce: &str,
) -> (bytes: Vec<u8>)
    ensures
        bytes@ == canonical_bytes(method@, path@, body_sha256@, client_id@, timestamp, nonce@),
{
    let mut time: Vec<u8> = Vec::new();
    let unsigned: u64 = timestamp as u64;
    assert(unsigned == as_unsigned(timestamp)) by {
        assert(timestamp < 0 ==> (timestamp as u64) == timestamp + 0x1_0000_0000_0000_0000)
            by (bit_vector);
    }
    push_big_endian(&mut time, unsigned);
    let mut out: Vec<u8> = Vec::new();
    push_field(&mut out, DOMAIN_TAG.as_bytes());
    push_field(&mut out, method.as_bytes());
    push_field(&mut out, path.as_bytes());
    push_field(&mut out, body_sha256);
    push_field(&mut out, client_id.as_bytes());
    push_field(&mut out, time.as_slice());
    push_field(&mut out, nonce.as_bytes());
    assert(time@ =~= big_endian(as_unsigned(timestamp), 8));
    assert(out@ =~= canonical_bytes(method@, path@, body_sha256@, client_id@, timestamp, nonce@));
    out
}

} // verus!
