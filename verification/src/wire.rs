//! The fixed-width little-endian fields of an entry header.

use vstd::prelude::*;

verus! {

/// The unsigned 16-bit number stored little-endian in the two bytes of
/// `bytes` that start at `at`.
pub open spec fn spec_u16_le(bytes: Seq<u8>, at: int) -> int {
    bytes[at] + 0x100 * bytes[at + 1]
}

/// The unsigned 32-bit number stored little-endian in the four bytes of
/// `bytes` that start at `at`.
pub open spec fn spec_u32_le(bytes: Seq<u8>, at: int) -> int {
    bytes[at] + 0x100 * bytes[at + 1] + 0x1_0000 * bytes[at + 2] + 0x100_0000 * bytes[at + 3]
}

/// The two bytes that store `value` little-endian.
pub open spec fn spec_u16_le_bytes(value: u16) -> Seq<u8> {
    seq![(value % 0x100) as u8, (value / 0x100) as u8]
}

/// The four bytes that store `value` little-endian.
pub open spec fn spec_u32_le_bytes(value: u32) -> Seq<u8> {
    seq![
        (value % 0x100) as u8,
        (value / 0x100 % 0x100) as u8,
        (value / 0x1_0000 % 0x100) as u8,
        (value / 0x100_0000) as u8,
    ]
}

/// Reading back the bytes that store a 16-bit number gives that number.
pub proof fn lemma_u16_le_round_trip(value: u16)
    ensures
        spec_u16_le_bytes(value).len() == 2,
        spec_u16_le(spec_u16_le_bytes(value), 0) == value,
{
}

/// Reading back the bytes that store a 32-bit number gives that number.
pub proof fn lemma_u32_le_round_trip(value: u32)
    ensures
        spec_u32_le_bytes(value).len() == 4,
        spec_u32_le(spec_u32_le_bytes(value), 0) == value,
{
}

/// Reads the little-endian 16-bit field at offset `at`.
pub fn read_u16_le(bytes: &[u8], at: usize) -> (value: u16)
    requires
        at + 2 <= bytes@.len(),
    ensures
        value == spec_u16_le(bytes@, at as int),
{
    let b0: u16 = bytes[at] as u16;
    let b1: u16 = bytes[at + 1] as u16;
    b0 + 0x100 * b1
}

/// Reads the little-endian 32-bit field at offset `at`.
pub fn read_u32_le(bytes: &[u8], at: usize) -> (value: u32)
    requires
        at + 4 <= bytes@.len(),
    ensures
        value == spec_u32_le(bytes@, at as int),
{
    let b0: u32 = bytes[at] as u32;
    let b1: u32 = bytes[at + 1] as u32;
    let b2: u32 = bytes[at + 2] as u32;
    let b3: u32 = bytes[at + 3] as u32;
    b0 + 0x100 * b1 + 0x1_0000 * b2 + 0x100_0000 * b3
}

} // verus!
