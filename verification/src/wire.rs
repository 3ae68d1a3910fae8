//! Byte-level descriptions of the CDR wire form of the primitive values the
//! key machinery relies on, with the round-trip facts the proofs need.

use vstd::prelude::*;

verus! {

/// The four bytes of `x`, most significant first.
pub open spec fn u32_be_bytes(x: u32) -> Seq<u8> {
    seq![
        ((x >> 24) & 0xff) as u8,
        ((x >> 16) & 0xff) as u8,
        ((x >> 8) & 0xff) as u8,
        (x & 0xff) as u8,
    ]
}

/// The four bytes of `x`, least significant first.
pub open spec fn u32_le_bytes(x: u32) -> Seq<u8> {
    seq![
        (x & 0xff) as u8,
        ((x >> 8) & 0xff) as u8,
        ((x >> 16) & 0xff) as u8,
        ((x >> 24) & 0xff) as u8,
    ]
}

/// The value whose big-endian bytes are `s`.
pub open spec fn u32_from_be_bytes(s: Seq<u8>) -> u32
    recommends
        s.len() == 4,
{
    (s[0] as u32) << 24 | (s[1] as u32) << 16 | (s[2] as u32) << 8 | (s[3] as u32)
}

/// A signed value travels as its two's-complement bit image.
pub open spec fn i32_be_bytes(x: i32) -> Seq<u8> {
    u32_be_bytes(x as u32)
}

pub open spec fn i32_le_bytes(x: i32) -> Seq<u8> {
    u32_le_bytes(x as u32)
}

pub open spec fn i32_from_be_bytes(s: Seq<u8>) -> i32
    recommends
        s.len() == 4,
{
    u32_from_be_bytes(s) as i32
}

/// The CDR form of text, given its UTF-8 bytes: a little-endian 32-bit
/// length counting the terminator, the bytes themselves, and a terminating
/// zero byte.
pub open spec fn cdr_text_le(utf8: Seq<u8>) -> Seq<u8>
    recommends
        utf8.len() + 1 <= u32::MAX,
{
    u32_le_bytes((utf8.len() + 1) as u32) + utf8 + seq![0u8]
}

/// `s` extended with zero bytes to exactly 16 bytes.
pub open spec fn zero_pad16(s: Seq<u8>) -> Seq<u8>
    recommends
        s.len() <= 16,
{
    s + Seq::new((16 - s.len()) as nat, |i| 0u8)
}

pub proof fn lemma_u32_be_round_trip(x: u32)
    ensures
        u32_from_be_bytes(u32_be_bytes(x)) == x,
        u32_be_bytes(x).len() == 4,
{
    assert(((x >> 24) & 0xff) < 256 && ((x >> 16) & 0xff) < 256 && ((x >> 8) & 0xff) < 256 && (x
        & 0xff) < 256) by (bit_vector);
    assert(x == ((x >> 24) & 0xff) << 24 | ((x >> 16) & 0xff) << 16 | ((x >> 8) & 0xff) << 8 | (
    x & 0xff)) by (bit_vector);
}

pub proof fn lemma_i32_be_round_trip(x: i32)
    ensures
        i32_from_be_bytes(i32_be_bytes(x)) == x,
        i32_be_bytes(x).len() == 4,
{
    lemma_u32_be_round_trip(x as u32);
    assert((x as u32) as i32 == x) by (bit_vector);
}

} // verus!
