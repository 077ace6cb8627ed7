//! Little-endian scalar fields.
//!
//! Every multi-byte field of a firmware table is stored least significant
//! byte first. The spec functions give the value of such a field as plain
//! arithmetic over the bytes; the readers compute it from a slice.

use vstd::prelude::*;

verus! {

/// Value of the 16-bit little-endian field that starts at index `at` of `s`.
pub open spec fn le_u16(s: Seq<u8>, at: int) -> int {
    s[at] as int + 0x100 * (s[at + 1] as int)
}

/// Value of the 32-bit little-endian field that starts at index `at` of `s`.
pub open spec fn le_u32(s: Seq<u8>, at: int) -> int {
    le_u16(s, at) + 0x1_0000 * le_u16(s, at + 2)
}

/// Value of the 64-bit little-endian field that starts at index `at` of `s`.
pub open spec fn le_u64(s: Seq<u8>, at: int) -> int {
    le_u32(s, at) + 0x1_0000_0000 * le_u32(s, at + 4)
}

/// Value of the 128-bit little-endian field that starts at index `at` of `s`.
pub open spec fn le_u128(s: Seq<u8>, at: int) -> int {
    le_u64(s, at) + 0x1_0000_0000_0000_0000 * le_u64(s, at + 8)
}

/// The byte at index `at`.
pub fn read_u8(bytes: &[u8], at: usize) -> (value: u8)
    requires
        at < bytes.len(),
    ensures
        value == bytes@[at as int],
{
    bytes[at]
}

/// Reads the 16-bit little-endian field at index `at`.
pub fn read_u16(bytes: &[u8], at: usize) -> (value: u16)
    requires
        at + 2 <= bytes.len(),
    ensures
        value == le_u16(bytes@, at as int),
{
    let b0: u16 = bytes[at] as u16;
    let b1: u16 = bytes[at + 1] as u16;
    b0 + 0x100 * b1
}

/// Reads the 32-bit little-endian field at index `at`.
pub fn read_u32(bytes: &[u8], at: usize) -> (value: u32)
    requires
        at + 4 <= bytes.len(),
    ensures
        value == le_u32(bytes@, at as int),
{
    let lo: u32 = read_u16(bytes, at) as u32;
    let hi: u32 = read_u16(bytes, at + 2) as u32;
    lo + 0x1_0000 * hi
}

/// Reads the 64-bit little-endian field at index `at`.
pub fn read_u64(bytes: &[u8], at: usize) -> (value: u64)
    requires
        at + 8 <= bytes.len(),
    ensures
        value == le_u64(bytes@, at as int),
{
    let lo: u64 = read_u32(bytes, at) as u64;
    let hi: u64 = read_u32(bytes, at + 4) as u64;
    lo + 0x1_0000_0000 * hi
}

/// Reads the 128-bit little-endian field at index `at`.
pub fn read_u128(bytes: &[u8], at: usize) -> (value: u128)
    requires
        at + 16 <= bytes.len(),
    ensures
        value == le_u128(bytes@, at as int),
{
    let lo: u128 = read_u64(bytes, at) as u128;
    let hi: u128 = read_u64(bytes, at + 8) as u128;
    lo + 0x1_0000_0000_0000_0000 * hi
}

} // verus!
