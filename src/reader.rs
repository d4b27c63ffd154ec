//! Big-endian scalars and length-prefixed strings over a byte cursor.
//!
//! A reader takes `&mut &[u8]`: on success the slice is advanced past what was
//! read; on failure the caller abandons the whole decode.

use vstd::prelude::*;
use vstd::utf8::{decode_utf8, encode_utf8, valid_utf8};
use crate::protocol::{JdwpResult, decoded, is_protocol_error, protocol_error};

verus! {

/// The integer that two bytes spell in network byte order.
pub open spec fn be_u16(b0: u8, b1: u8) -> u16 {
    ((b0 as u16) << 8u16) | (b1 as u16)
}

/// The integer that four bytes spell in network byte order.
pub open spec fn be_u32(b0: u8, b1: u8, b2: u8, b3: u8) -> u32 {
    ((b0 as u32) << 24u32) | ((b1 as u32) << 16u32) | ((b2 as u32) << 8u32) | (b3 as u32)
}

/// The integer that the first eight bytes of `b` spell in network byte order.
pub open spec fn be_u64(b: Seq<u8>) -> u64 {
    ((b[0] as u64) << 56u64) | ((b[1] as u64) << 48u64) | ((b[2] as u64) << 40u64)
        | ((b[3] as u64) << 32u64) | ((b[4] as u64) << 24u64) | ((b[5] as u64) << 16u64)
        | ((b[6] as u64) << 8u64) | (b[7] as u64)
}

/// The two bytes of `v`, most significant first.
pub open spec fn u16_bytes(v: u16) -> Seq<u8> {
    seq![(v >> 8u16) as u8, v as u8]
}

/// The four bytes of `v`, most significant first.
pub open spec fn u32_bytes(v: u32) -> Seq<u8> {
    seq![(v >> 24u32) as u8, (v >> 16u32) as u8, (v >> 8u32) as u8, v as u8]
}

/// The eight bytes of `v`, most significant first.
pub open spec fn u64_bytes(v: u64) -> Seq<u8> {
    seq![
        (v >> 56u64) as u8,
        (v >> 48u64) as u8,
        (v >> 40u64) as u8,
        (v >> 32u64) as u8,
        (v >> 24u64) as u8,
        (v >> 16u64) as u8,
        (v >> 8u64) as u8,
        v as u8,
    ]
}

/// The first byte of `b` and what follows it.
pub open spec fn take_u8(b: Seq<u8>) -> Option<(u8, Seq<u8>)> {
    if b.len() >= 1 {
        Some((b[0], b.skip(1)))
    } else {
        None
    }
}

/// A big-endian u16 at the front of `b`, and what follows it.
pub open spec fn take_u16(b: Seq<u8>) -> Option<(u16, Seq<u8>)> {
    if b.len() >= 2 {
        Some((be_u16(b[0], b[1]), b.skip(2)))
    } else {
        None
    }
}

/// A big-endian u32 at the front of `b`, and what follows it.
pub open spec fn take_u32(b: Seq<u8>) -> Option<(u32, Seq<u8>)> {
    if b.len() >= 4 {
        Some((be_u32(b[0], b[1], b[2], b[3]), b.skip(4)))
    } else {
        None
    }
}

/// A big-endian u64 at the front of `b`, and what follows it.
pub open spec fn take_u64(b: Seq<u8>) -> Option<(u64, Seq<u8>)> {
    if b.len() >= 8 {
        Some((be_u64(b), b.skip(8)))
    } else {
        None
    }
}

/// An i8 at the front of `b`: the bits of a u8.
pub open spec fn take_i8(b: Seq<u8>) -> Option<(i8, Seq<u8>)> {
    match take_u8(b) {
        Some((v, rest)) => Some((v as i8, rest)),
        None => None,
    }
}

/// A big-endian i16: the bits of a u16.
pub open spec fn take_i16(b: Seq<u8>) -> Option<(i16, Seq<u8>)> {
    match take_u16(b) {
        Some((v, rest)) => Some((v as i16, rest)),
        None => None,
    }
}

/// A big-endian i32: the bits of a u32.
pub open spec fn take_i32(b: Seq<u8>) -> Option<(i32, Seq<u8>)> {
    match take_u32(b) {
        Some((v, rest)) => Some((v as i32, rest)),
        None => None,
    }
}

/// A big-endian i64: the bits of a u64.
pub open spec fn take_i64(b: Seq<u8>) -> Option<(i64, Seq<u8>)> {
    match take_u64(b) {
        Some((v, rest)) => Some((v as i64, rest)),
        None => None,
    }
}

/// A string: a four-byte length, then that many bytes of UTF-8.
pub open spec fn take_string(b: Seq<u8>) -> Option<(Seq<char>, Seq<u8>)> {
    match take_u32(b) {
        Some((n, rest)) => if n <= rest.len() && valid_utf8(rest.take(n as int)) {
            Some((decode_utf8(rest.take(n as int)), rest.skip(n as int)))
        } else {
            None
        },
        None => None,
    }
}

/// The bytes of a string as `write_string` lays them out.
pub open spec fn string_bytes(s: Seq<char>) -> Seq<u8> {
    u32_bytes(encode_utf8(s).len() as u32) + encode_utf8(s)
}

/// The value part of a reader's result.
pub open spec fn first<T>(p: Option<(T, Seq<u8>)>) -> Option<T> {
    match p {
        Some((v, _)) => Some(v),
        None => None,
    }
}

/// The cursor after a reader that succeeded, and unchanged after one that failed.
pub open spec fn rest_after<T>(p: Option<(T, Seq<u8>)>, b: Seq<u8>) -> Seq<u8> {
    match p {
        Some((_, rest)) => rest,
        None => b,
    }
}

/// `n` items one after another, each read by `item` from what the one before
/// it left.
pub open spec fn take_n<T>(
    b: Seq<u8>,
    n: nat,
    item: spec_fn(Seq<u8>) -> Option<(T, Seq<u8>)>,
) -> Option<(Seq<T>, Seq<u8>)>
    decreases n,
{
    if n == 0 {
        Some((Seq::empty(), b))
    } else {
        match take_n(b, (n - 1) as nat, item) {
            Some((xs, r)) => match item(r) {
                Some((x, r2)) => Some((xs.push(x), r2)),
                None => None,
            },
            None => None,
        }
    }
}

/// The number of items that a count read from the wire announces: a
/// negative count announces none.
pub open spec fn count_of(c: i32) -> nat {
    if c < 0 {
        0
    } else {
        c as nat
    }
}

/// A four-byte count, then that many items; what follows them is not looked at.
pub open spec fn counted_items<T>(
    b: Seq<u8>,
    item: spec_fn(Seq<u8>) -> Option<(T, Seq<u8>)>,
) -> Option<Seq<T>> {
    match take_i32(b) {
        Some((c, r)) => match take_n(r, count_of(c), item) {
            Some((xs, _)) => Some(xs),
            None => None,
        },
        None => None,
    }
}

/// Once an item in a run fails to read, every longer run fails too.
pub proof fn lemma_take_n_fails_on<T>(
    b: Seq<u8>,
    i: nat,
    n: nat,
    item: spec_fn(Seq<u8>) -> Option<(T, Seq<u8>)>,
)
    requires
        i <= n,
        take_n(b, i, item) is None,
    ensures
        take_n(b, n, item) is None,
    decreases n - i,
{
    if i < n {
        lemma_take_n_fails_on(b, i + 1, n, item);
    }
}

/// Move the cursor past `n` bytes.
fn advance(buf: &mut &[u8], n: usize)
    requires
        n <= old(buf)@.len(),
    ensures
        final(buf)@ == old(buf)@.skip(n as int),
{
    let len = buf.len();
    *buf = vstd::slice::slice_subrange(*buf, n, len);
}

/// Read a u8
pub fn read_u8(buf: &mut &[u8]) -> (r: JdwpResult<u8>)
    ensures
        decoded(r, first(take_u8(old(buf)@))),
        final(buf)@ == rest_after(take_u8(old(buf)@), old(buf)@),
{
    if buf.len() < 1 {
        return Err(protocol_error("Not enough data for u8"));
    }
    let v = buf[0];
    advance(buf, 1);
    Ok(v)
}

/// Read a u16
pub fn read_u16(buf: &mut &[u8]) -> (r: JdwpResult<u16>)
    ensures
        decoded(r, first(take_u16(old(buf)@))),
        final(buf)@ == rest_after(take_u16(old(buf)@), old(buf)@),
{
    if buf.len() < 2 {
        return Err(protocol_error("Not enough data for u16"));
    }
    let v = ((buf[0] as u16) << 8u16) | (buf[1] as u16);
    advance(buf, 2);
    Ok(v)
}

/// Read a u32
pub fn read_u32(buf: &mut &[u8]) -> (r: JdwpResult<u32>)
    ensures
        decoded(r, first(take_u32(old(buf)@))),
        final(buf)@ == rest_after(take_u32(old(buf)@), old(buf)@),
{
    if buf.len() < 4 {
        return Err(protocol_error("Not enough data for u32"));
    }
    let v = ((buf[0] as u32) << 24u32) | ((buf[1] as u32) << 16u32) | ((buf[2] as u32) << 8u32)
        | (buf[3] as u32);
    advance(buf, 4);
    Ok(v)
}

/// Read a u64
pub fn read_u64(buf: &mut &[u8]) -> (r: JdwpResult<u64>)
    ensures
        decoded(r, first(take_u64(old(buf)@))),
        final(buf)@ == rest_after(take_u64(old(buf)@), old(buf)@),
{
    if buf.len() < 8 {
        return Err(protocol_error("Not enough data for u64"));
    }
    let v = ((buf[0] as u64) << 56u64) | ((buf[1] as u64) << 48u64) | ((buf[2] as u64) << 40u64)
        | ((buf[3] as u64) << 32u64) | ((buf[4] as u64) << 24u64) | ((buf[5] as u64) << 16u64)
        | ((buf[6] as u64) << 8u64) | (buf[7] as u64);
    advance(buf, 8);
    Ok(v)
}

/// Read an i8
pub fn read_i8(buf: &mut &[u8]) -> (r: JdwpResult<i8>)
    ensures
        decoded(r, first(take_i8(old(buf)@))),
        final(buf)@ == rest_after(take_i8(old(buf)@), old(buf)@),
{
    let v = read_u8(buf)?;
    Ok(v as i8)
}

/// Read an i16
pub fn read_i16(buf: &mut &[u8]) -> (r: JdwpResult<i16>)
    ensures
        decoded(r, first(take_i16(old(buf)@))),
        final(buf)@ == rest_after(take_i16(old(buf)@), old(buf)@),
{
    let v = read_u16(buf)?;
    Ok(v as i16)
}

/// Read an i32
pub fn read_i32(buf: &mut &[u8]) -> (r: JdwpResult<i32>)
    ensures
        decoded(r, first(take_i32(old(buf)@))),
        final(buf)@ == rest_after(take_i32(old(buf)@), old(buf)@),
{
    let v = read_u32(buf)?;
    Ok(v as i32)
}

/// Read an i64
pub fn read_i64(buf: &mut &[u8]) -> (r: JdwpResult<i64>)
    ensures
        decoded(r, first(take_i64(old(buf)@))),
        final(buf)@ == rest_after(take_i64(old(buf)@), old(buf)@),
{
    let v = read_u64(buf)?;
    Ok(v as i64)
}

/// Relies on `String::from_utf8`: it succeeds exactly on valid UTF-8 and then
/// holds the characters that the bytes encode.
#[verifier::external_body]
fn utf8_string(bytes: Vec<u8>) -> (r: Option<String>)
    ensures
        r is Some <==> valid_utf8(bytes@),
        r matches Some(s) ==> s@ == decode_utf8(bytes@),
{
    String::from_utf8(bytes).ok()
}

/// Read a JDWP string (4-byte length prefix + UTF-8 bytes)
pub fn read_string(buf: &mut &[u8]) -> (r: JdwpResult<String>)
    ensures
        match take_string(old(buf)@) {
            Some((s, rest)) => r matches Ok(v) && v@ == s && final(buf)@ == rest,
            None => is_protocol_error(r),
        },
        r is Err ==> final(buf)@ == old(buf)@ || final(buf)@ == old(buf)@.skip(4),
{
    let n = read_u32(buf)?;
    let len = n as usize;
    if buf.len() < len {
        return Err(protocol_error("Not enough data for string"));
    }
    let bytes = vstd::slice::slice_to_vec(vstd::slice::slice_subrange(*buf, 0, len));
    match utf8_string(bytes) {
        Some(s) => {
            advance(buf, len);
            Ok(s)
        },
        None => Err(protocol_error("Invalid UTF-8 in string")),
    }
}

/// Append a u8
pub fn write_u8(buf: &mut Vec<u8>, v: u8)
    ensures
        final(buf)@ == old(buf)@.push(v),
{
    buf.push(v);
}

/// Append a u16 in network byte order
pub fn write_u16(buf: &mut Vec<u8>, v: u16)
    ensures
        final(buf)@ == old(buf)@ + u16_bytes(v),
{
    buf.push((v >> 8u16) as u8);
    buf.push(v as u8);
    assert(buf@ =~= old(buf)@ + u16_bytes(v));
}

/// Append a u32 in network byte order
pub fn write_u32(buf: &mut Vec<u8>, v: u32)
    ensures
        final(buf)@ == old(buf)@ + u32_bytes(v),
{
    buf.push((v >> 24u32) as u8);
    buf.push((v >> 16u32) as u8);
    buf.push((v >> 8u32) as u8);
    buf.push(v as u8);
    assert(buf@ =~= old(buf)@ + u32_bytes(v));
}

/// Append a u64 in network byte order
pub fn write_u64(buf: &mut Vec<u8>, v: u64)
    ensures
        final(buf)@ == old(buf)@ + u64_bytes(v),
{
    buf.push((v >> 56u64) as u8);
    buf.push((v >> 48u64) as u8);
    buf.push((v >> 40u64) as u8);
    buf.push((v >> 32u64) as u8);
    buf.push((v >> 24u64) as u8);
    buf.push((v >> 16u64) as u8);
    buf.push((v >> 8u64) as u8);
    buf.push(v as u8);
    assert(buf@ =~= old(buf)@ + u64_bytes(v));
}

/// Append an i8
pub fn write_i8(buf: &mut Vec<u8>, v: i8)
    ensures
        final(buf)@ == old(buf)@.push(v as u8),
{
    write_u8(buf, v as u8);
}

/// Append an i16 in network byte order
pub fn write_i16(buf: &mut Vec<u8>, v: i16)
    ensures
        final(buf)@ == old(buf)@ + u16_bytes(v as u16),
{
    write_u16(buf, v as u16);
}

/// Append an i32 in network byte order
pub fn write_i32(buf: &mut Vec<u8>, v: i32)
    ensures
        final(buf)@ == old(buf)@ + u32_bytes(v as u32),
{
    write_u32(buf, v as u32);
}

/// Append an i64 in network byte order
pub fn write_i64(buf: &mut Vec<u8>, v: i64)
    ensures
        final(buf)@ == old(buf)@ + u64_bytes(v as u64),
{
    write_u64(buf, v as u64);
}

/// Append a JDWP string: its UTF-8 length as four bytes, then the bytes.
pub fn write_string(buf: &mut Vec<u8>, s: &str)
    requires
        encode_utf8(s@).len() <= u32::MAX,
    ensures
        final(buf)@ == old(buf)@ + string_bytes(s@),
{
    let bytes = s.as_bytes();
    write_u32(buf, bytes.len() as u32);
    buf.extend_from_slice(bytes);
    assert(buf@ =~= old(buf)@ + string_bytes(s@));
}

proof fn lemma_u16_bytes_back(v: u16)
    ensures
        be_u16(u16_bytes(v)[0], u16_bytes(v)[1]) == v,
{
    assert((((v >> 8u16) as u8 as u16) << 8u16) | (v as u8 as u16) == v) by (bit_vector);
}

proof fn lemma_u32_bytes_back(v: u32)
    ensures
        be_u32(u32_bytes(v)[0], u32_bytes(v)[1], u32_bytes(v)[2], u32_bytes(v)[3]) == v,
{
    assert((((v >> 24u32) as u8 as u32) << 24u32) | (((v >> 16u32) as u8 as u32) << 16u32) | (((v
        >> 8u32) as u8 as u32) << 8u32) | (v as u8 as u32) == v) by (bit_vector);
}

proof fn lemma_u64_bytes_back(v: u64)
    ensures
        be_u64(u64_bytes(v)) == v,
{
    assert((((v >> 56u64) as u8 as u64) << 56u64) | (((v >> 48u64) as u8 as u64) << 48u64) | (((v
        >> 40u64) as u8 as u64) << 40u64) | (((v >> 32u64) as u8 as u64) << 32u64) | (((v
        >> 24u64) as u8 as u64) << 24u64) | (((v >> 16u64) as u8 as u64) << 16u64) | (((v
        >> 8u64) as u8 as u64) << 8u64) | (v as u8 as u64) == v) by (bit_vector);
}

proof fn lemma_take_u16(v: u16, rest: Seq<u8>)
    ensures
        take_u16(u16_bytes(v) + rest) == Some((v, rest)),
{
    lemma_u16_bytes_back(v);
    assert((u16_bytes(v) + rest).skip(2) =~= rest);
}

proof fn lemma_take_u32(v: u32, rest: Seq<u8>)
    ensures
        take_u32(u32_bytes(v) + rest) == Some((v, rest)),
{
    lemma_u32_bytes_back(v);
    assert((u32_bytes(v) + rest).skip(4) =~= rest);
}

proof fn lemma_take_u64(v: u64, rest: Seq<u8>)
    ensures
        take_u64(u64_bytes(v) + rest) == Some((v, rest)),
{
    lemma_u64_bytes_back(v);
    let all = u64_bytes(v) + rest;
    assert(all.skip(8) =~= rest);
    assert(all.take(8) =~= u64_bytes(v));
    assert(be_u64(all) == be_u64(u64_bytes(v)));
}

/// Every scalar written in front of any bytes reads back as itself, and the
/// bytes after it are left for the next read.
pub proof fn lemma_scalar_round_trip(
    rest: Seq<u8>,
    a: u8,
    b: u16,
    c: u32,
    d: u64,
    e: i8,
    f: i16,
    g: i32,
    h: i64,
)
    ensures
        take_u8(seq![a] + rest) == Some((a, rest)),
        take_u16(u16_bytes(b) + rest) == Some((b, rest)),
        take_u32(u32_bytes(c) + rest) == Some((c, rest)),
        take_u64(u64_bytes(d) + rest) == Some((d, rest)),
        take_i8(seq![e as u8] + rest) == Some((e, rest)),
        take_i16(u16_bytes(f as u16) + rest) == Some((f, rest)),
        take_i32(u32_bytes(g as u32) + rest) == Some((g, rest)),
        take_i64(u64_bytes(h as u64) + rest) == Some((h, rest)),
{
    assert((seq![a] + rest).skip(1) =~= rest);
    assert((seq![e as u8] + rest).skip(1) =~= rest);
    assert(e as u8 as i8 == e) by (bit_vector);
    assert(f as u16 as i16 == f) by (bit_vector);
    assert(g as u32 as i32 == g) by (bit_vector);
    assert(h as u64 as i64 == h) by (bit_vector);
    lemma_take_u16(b, rest);
    lemma_take_u32(c, rest);
    lemma_take_u64(d, rest);
    lemma_take_u16(f as u16, rest);
    lemma_take_u32(g as u32, rest);
    lemma_take_u64(h as u64, rest);
}

/// A string written in front of any bytes reads back as itself, and the
/// bytes after it are left for the next read.
pub proof fn lemma_string_round_trip(s: Seq<char>, rest: Seq<u8>)
    requires
        encode_utf8(s).len() <= u32::MAX,
    ensures
        take_string(string_bytes(s) + rest) == Some((s, rest)),
{
    let enc = encode_utf8(s);
    let n = enc.len() as u32;
    let all = string_bytes(s) + rest;
    assert(all =~= u32_bytes(n) + (enc + rest));
    lemma_take_u32(n, enc + rest);
    assert((enc + rest).take(n as int) =~= enc);
    assert((enc + rest).skip(n as int) =~= rest);
    vstd::utf8::encode_utf8_valid_utf8(s);
    vstd::utf8::encode_utf8_decode_utf8(s);
}

} // verus!
