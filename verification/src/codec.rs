//! The boundary to the external CDR encoder/decoder and to the external
//! digest function. Each function here makes exactly one outside call; its
//! contract states what that call returns, and everything built on top of it
//! is verified against that statement.

use crate::wire::{
    cdr_text_le, i32_be_bytes, i32_from_be_bytes, i32_le_bytes, u32_be_bytes, u32_from_be_bytes,
    u32_le_bytes,
};
use md5::Digest;
use vstd::prelude::*;
use vstd::string::StringSliceAdditionalSpecFns;

verus! {

/// The 16-byte MD5 digest of a byte string. The digest is a pure function of
/// the bytes alone; nothing else is assumed of it.
pub uninterp spec fn md5_of(bytes: Seq<u8>) -> Seq<u8>;

/// Relies on `cdr_encoding::to_vec` with `byteorder::BigEndian`: a
/// `(u32, i32)` pair encodes as the four big-endian bytes of each component
/// with no padding between them, and writing into a `Vec` cannot fail.
#[verifier::external_body]
pub(crate) fn cdr_encode_u32_i32_be(x: u32, y: i32) -> (r: Vec<u8>)
    ensures
        r@ == u32_be_bytes(x) + i32_be_bytes(y),
{
    cdr_encoding::to_vec::<(u32, i32), byteorder::BigEndian>(&(x, y)).unwrap()
}

/// Relies on `cdr_encoding::to_vec` with `byteorder::LittleEndian`: as the
/// big-endian form, with each component's bytes least significant first.
#[verifier::external_body]
pub(crate) fn cdr_encode_u32_i32_le(x: u32, y: i32) -> (r: Vec<u8>)
    ensures
        r@ == u32_le_bytes(x) + i32_le_bytes(y),
{
    cdr_encoding::to_vec::<(u32, i32), byteorder::LittleEndian>(&(x, y)).unwrap()
}

/// Relies on `cdr_encoding::to_vec` with `byteorder::LittleEndian`: text
/// encodes as a little-endian 32-bit byte count (the terminator included),
/// the UTF-8 bytes, and a terminating zero byte. The byte count must fit the
/// 32-bit prefix; writing into a `Vec` cannot fail.
#[verifier::external_body]
pub(crate) fn cdr_encode_str_le(s: &str) -> (r: Vec<u8>)
    requires
        s.spec_bytes().len() + 1 <= u32::MAX,
    ensures
        r@ == cdr_text_le(s.spec_bytes()),
{
    cdr_encoding::to_vec::<&str, byteorder::LittleEndian>(&s).unwrap()
}

/// Relies on `cdr_encoding::from_bytes` with `byteorder::BigEndian`: a
/// `(u32, i32)` pair is read back as four big-endian bytes each, and fewer
/// than eight input bytes fail with an end-of-input error.
#[verifier::external_body]
pub(crate) fn cdr_decode_u32_i32_be(bytes: &[u8]) -> (r: Option<(u32, i32)>)
    ensures
        bytes@.len() >= 8 ==> r == Some(
            (
                u32_from_be_bytes(bytes@.subrange(0, 4)),
                i32_from_be_bytes(bytes@.subrange(4, 8)),
            ),
        ),
        bytes@.len() < 8 ==> r is None,
{
    match cdr_encoding::from_bytes::<(u32, i32), byteorder::BigEndian>(bytes) {
        Ok((pair, _consumed)) => Some(pair),
        Err(_) => None,
    }
}

/// Relies on `md5::Md5` (the RustCrypto MD5 implementation): the digest
/// depends on the input bytes alone and is exactly 16 bytes long.
#[verifier::external_body]
pub(crate) fn md5_digest(bytes: &[u8]) -> (r: Vec<u8>)
    ensures
        r@ == md5_of(bytes@),
        r@.len() == 16,
{
    md5::Md5::digest(bytes).to_vec()
}

} // verus!
