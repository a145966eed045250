//! Memory images of index and vertex words, as they are uploaded to the device.

use vstd::prelude::*;
use vstd::endian::{endianness, Endian};

verus! {

/// The two bytes of `x` in the byte order of the executing machine.
pub open spec fn u16_bytes(x: u16) -> Seq<u8> {
    let low = (x % 0x100) as u8;
    let high = (x / 0x100) as u8;
    match endianness() {
        Endian::Little => seq![low, high],
        Endian::Big => seq![high, low],
    }
}

/// The four bytes of `x` in the byte order of the executing machine.
pub open spec fn u32_bytes(x: u32) -> Seq<u8> {
    let b0 = (x % 0x100) as u8;
    let b1 = ((x / 0x100) % 0x100) as u8;
    let b2 = ((x / 0x1_0000) % 0x100) as u8;
    let b3 = (x / 0x100_0000) as u8;
    match endianness() {
        Endian::Little => seq![b0, b1, b2, b3],
        Endian::Big => seq![b3, b2, b1, b0],
    }
}

/// The memory image of a run of 16-bit values: element after element, two bytes each.
pub open spec fn u16s_bytes(values: Seq<u16>) -> Seq<u8> {
    Seq::new(2 * values.len(), |i: int| u16_bytes(values[i / 2])[i % 2])
}

/// The memory image of a run of 32-bit words: word after word, four bytes each.
pub open spec fn u32s_bytes(words: Seq<u32>) -> Seq<u8> {
    Seq::new(4 * words.len(), |i: int| u32_bytes(words[i / 4])[i % 4])
}

/// Calls `bytemuck::cast_slice` from `u16` to `u8` and copies the bytes out.
///
/// Trusted: the result is the memory of the slice read byte by byte, so each
/// element gives its two bytes in the machine's byte order, in element order.
/// A cast to `u8` cannot fail: bytes need no alignment and leave no remainder.
#[verifier::external_body]
pub(crate) fn cast_u16s(values: &Vec<u16>) -> (bytes: Vec<u8>)
    ensures
        bytes@ == u16s_bytes(values@),
{
    bytemuck::cast_slice::<u16, u8>(values.as_slice()).to_vec()
}

/// Calls `bytemuck::cast_slice` from `u32` to `u8` and copies the bytes out.
///
/// Trusted: the result is the memory of the slice read byte by byte, so each
/// word gives its four bytes in the machine's byte order, in word order.
/// A cast to `u8` cannot fail: bytes need no alignment and leave no remainder.
#[verifier::external_body]
pub(crate) fn cast_u32s(words: &Vec<u32>) -> (bytes: Vec<u8>)
    ensures
        bytes@ == u32s_bytes(words@),
{
    bytemuck::cast_slice::<u32, u8>(words.as_slice()).to_vec()
}

} // verus!
