//! Numbers as they lie in memory: the least significant byte first.

use vstd::prelude::*;

verus! {

/// Byte `index` of `value`, counted from the least significant.
pub open spec fn byte_of(value: u64, index: u64) -> u8 {
    ((value >> (8 * index)) & 0xff) as u8
}

/// The two bytes of `value` as they lie in memory.
pub open spec fn le_bytes_u16(value: u16) -> Seq<u8> {
    seq![byte_of(value as u64, 0), byte_of(value as u64, 1)]
}

/// The eight bytes of `value` as they lie in memory.
pub open spec fn le_bytes_u64(value: u64) -> Seq<u8> {
    seq![
        byte_of(value, 0),
        byte_of(value, 1),
        byte_of(value, 2),
        byte_of(value, 3),
        byte_of(value, 4),
        byte_of(value, 5),
        byte_of(value, 6),
        byte_of(value, 7),
    ]
}

/// Byte `index` of `value`, counted from the least significant.
pub fn byte(value: u64, index: u64) -> (result: u8)
    requires
        index < 8,
    ensures
        result == byte_of(value, index),
{
    ((value >> (8 * index)) & 0xff) as u8
}

/// The number whose four bytes lie in `bytes` from index `at` on.
pub open spec fn u32_from_le(bytes: Seq<u8>, at: int) -> u32 {
    (bytes[at] as u32) | ((bytes[at + 1] as u32) << 8) | ((bytes[at + 2] as u32) << 16) | ((
    bytes[at + 3] as u32) << 24)
}

/// The number whose eight bytes lie in `bytes` from index `at` on.
pub open spec fn u64_from_le(bytes: Seq<u8>, at: int) -> u64 {
    (u32_from_le(bytes, at) as u64) | ((u32_from_le(bytes, at + 4) as u64) << 32)
}

/// The number whose four bytes lie in `bytes` from index `at` on.
pub fn read_u32(bytes: &[u8], at: usize) -> (value: u32)
    requires
        at + 4 <= bytes@.len(),
    ensures
        value == u32_from_le(bytes@, at as int),
{
    let length = bytes.len();
    assert(at + 4 <= length);
    (bytes[at] as u32) | ((bytes[at + 1] as u32) << 8) | ((bytes[at + 2] as u32) << 16) | ((
    bytes[at + 3] as u32) << 24)
}

/// The number whose eight bytes lie in `bytes` from index `at` on.
pub fn read_u64(bytes: &[u8], at: usize) -> (value: u64)
    requires
        at + 8 <= bytes@.len(),
    ensures
        value == u64_from_le(bytes@, at as int),
{
    let length = bytes.len();
    assert(at + 8 <= length);
    (read_u32(bytes, at) as u64) | ((read_u32(bytes, at + 4) as u64) << 32)
}

} // verus!
