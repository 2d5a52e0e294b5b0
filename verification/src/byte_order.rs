//! Big-endian ("network order") integers from `byteorder`.
use byteorder::{ByteOrder, NetworkEndian};
use vstd::prelude::*;

verus! {

/// The four bytes of `value`, most significant first.
pub open spec fn be_bytes(value: u32) -> Seq<u8> {
    seq![(value >> 24u32) as u8, (value >> 16u32) as u8, (value >> 8u32) as u8, value as u8]
}

/// The unsigned integer whose bytes, most significant first, start `bytes`.
pub open spec fn be_u32(bytes: Seq<u8>) -> u32 {
    ((bytes[0] as u32) << 24u32) | ((bytes[1] as u32) << 16u32) | ((bytes[2] as u32) << 8u32) | (
    bytes[3] as u32)
}

/// The two's complement integer whose bytes, most significant first, start `bytes`.
pub open spec fn be_i32(bytes: Seq<u8>) -> i32 {
    be_u32(bytes) as i32
}

/// `NetworkEndian::read_i32` on the bytes of `buffer` from `at`: the four bytes there, most
/// significant first, read as a two's complement integer. It panics on fewer than four bytes,
/// which `requires` rules out.
#[verifier::external_body]
pub(crate) fn read_i32_at(buffer: &[u8], at: usize) -> (value: i32)
    requires
        at + 4 <= buffer@.len(),
    ensures
        value == be_i32(buffer@.subrange(at as int, at + 4)),
{
    NetworkEndian::read_i32(&buffer[at..])
}

/// `NetworkEndian::write_i32` into a four-byte buffer: the bytes of `value`'s two's complement,
/// most significant first.
#[verifier::external_body]
pub(crate) fn i32_bytes(value: i32) -> (bytes: [u8; 4])
    ensures
        bytes@ == be_bytes(value as u32),
{
    let mut bytes = [0u8; 4];
    NetworkEndian::write_i32(&mut bytes, value);
    bytes
}

/// `NetworkEndian::write_u32` into a four-byte buffer: the bytes of `value`, most significant
/// first.
#[verifier::external_body]
pub(crate) fn u32_bytes(value: u32) -> (bytes: [u8; 4])
    ensures
        bytes@ == be_bytes(value),
{
    let mut bytes = [0u8; 4];
    NetworkEndian::write_u32(&mut bytes, value);
    bytes
}

/// Reading back the four bytes written for a value gives the value.
pub proof fn lemma_be_roundtrip(value: u32)
    ensures
        be_u32(be_bytes(value)) == value,
{
    let b0 = (value >> 24u32) as u8;
    let b1 = (value >> 16u32) as u8;
    let b2 = (value >> 8u32) as u8;
    let b3 = value as u8;
    assert(((b0 as u32) << 24u32) | ((b1 as u32) << 16u32) | ((b2 as u32) << 8u32) | (b3 as u32)
        == value) by (bit_vector)
        requires
            b0 == (value >> 24u32) as u8,
            b1 == (value >> 16u32) as u8,
            b2 == (value >> 8u32) as u8,
            b3 == value as u8,
    ;
}

/// The same for a signed value.
pub proof fn lemma_be_i32_roundtrip(value: i32)
    ensures
        be_i32(be_bytes(value as u32)) == value,
{
    lemma_be_roundtrip(value as u32);
    let u = value as u32;
    assert((u as i32) == value) by (bit_vector)
        requires
            u == value as u32,
    ;
}

} // verus!
