//! Byte-level decoding primitives shared by the table codecs: big-endian
//! fixed-width integers, byte-range extraction, and UTF-8 string decoding.
use vstd::prelude::*;

verus! {

use vstd::utf8::{decode_utf8, valid_utf8};

/// The big-endian 16-bit value stored at `off`.
pub open spec fn be16(bytes: Seq<u8>, off: int) -> int {
    bytes[off] * 0x100 + bytes[off + 1]
}

/// The big-endian 32-bit value stored at `off`.
pub open spec fn be32(bytes: Seq<u8>, off: int) -> int {
    bytes[off] * 0x1000000 + bytes[off + 1] * 0x10000 + bytes[off + 2] * 0x100 + bytes[off + 3]
}

/// Reads the big-endian 16-bit integer at `off`.
pub fn read_be16(bytes: &[u8], off: usize) -> (r: u16)
    requires
        off + 2 <= bytes@.len(),
    ensures
        r == be16(bytes@, off as int),
{
    let hi = bytes[off] as u16;
    let lo = bytes[off + 1] as u16;
    hi * 0x100 + lo
}

/// Reads the big-endian 32-bit integer at `off`.
pub fn read_be32(bytes: &[u8], off: usize) -> (r: u32)
    requires
        off + 4 <= bytes@.len(),
    ensures
        r == be32(bytes@, off as int),
{
    let b0 = bytes[off] as u32;
    let b1 = bytes[off + 1] as u32;
    let b2 = bytes[off + 2] as u32;
    let b3 = bytes[off + 3] as u32;
    b0 * 0x1000000 + b1 * 0x10000 + b2 * 0x100 + b3
}

/// Copies the byte range `start..end` into an owned vector.
pub fn sub_bytes(bytes: &[u8], start: usize, end: usize) -> (r: Vec<u8>)
    requires
        start <= end <= bytes@.len(),
    ensures
        r@ == bytes@.subrange(start as int, end as int),
{
    let mut r: Vec<u8> = Vec::new();
    for i in start..end
        invariant
            start <= i <= end <= bytes@.len(),
            r@ == bytes@.subrange(start as int, i as int),
    {
        r.push(bytes[i]);
        proof {
            assert(bytes@.subrange(start as int, i + 1) =~= bytes@.subrange(
                start as int,
                i as int,
            ).push(bytes@[i as int]));
        }
    }
    r
}

/// Relies on `String::from_utf8`: it returns the decoded string exactly
/// when the bytes are a valid UTF-8 encoding, and fails otherwise.
#[verifier::external_body]
pub(crate) fn string_from_utf8(bytes: Vec<u8>) -> (r: Option<String>)
    ensures
        r is Some <==> valid_utf8(bytes@),
        r is Some ==> r.unwrap()@ == decode_utf8(bytes@),
{
    String::from_utf8(bytes).ok()
}

/// Decodes the byte range `start..end` as a UTF-8 string.
pub fn decode_str_range(bytes: &[u8], start: usize, end: usize) -> (r: Option<String>)
    requires
        start <= end <= bytes@.len(),
    ensures
        r is Some <==> valid_utf8(bytes@.subrange(start as int, end as int)),
        r is Some ==> r.unwrap()@ == decode_utf8(bytes@.subrange(start as int, end as int)),
{
    let sub = sub_bytes(bytes, start, end);
    string_from_utf8(sub)
}

} // verus!
