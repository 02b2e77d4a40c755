//! The pointer structure that tells the CPU where a descriptor table lies.

use crate::arch::bytes::{byte, le_bytes_u16, le_bytes_u64};
use vstd::prelude::*;

verus! {

/// The operand of the `lidt` instruction: where the table lies and how far
/// it reaches.
#[derive(Clone, Copy, Debug, PartialEq, Eq, Structural)]
pub struct DescriptorTablePointer {
    /// Offset of the table's last byte: its size in bytes, less one.
    pub limit: u16,
    /// Address of the table's first byte.
    pub base: u64,
}

impl DescriptorTablePointer {
    /// The pointer as it lies in memory, without padding: the limit, then
    /// the base, both with the least significant byte first.
    pub open spec fn spec_to_bytes(self) -> Seq<u8> {
        le_bytes_u16(self.limit) + le_bytes_u64(self.base)
    }

    /// The pointer as it lies in memory, without padding: the limit, then
    /// the base, both with the least significant byte first.
    pub fn to_bytes(&self) -> (bytes: [u8; 10])
        ensures
            bytes@ == self.spec_to_bytes(),
    {
        let limit = self.limit as u64;
        [
            byte(limit, 0),
            byte(limit, 1),
            byte(self.base, 0),
            byte(self.base, 1),
            byte(self.base, 2),
            byte(self.base, 3),
            byte(self.base, 4),
            byte(self.base, 5),
            byte(self.base, 6),
            byte(self.base, 7),
        ]
    }
}

} // verus!
