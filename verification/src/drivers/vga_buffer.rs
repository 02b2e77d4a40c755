//! The cells of the VGA text frame buffer.

use vstd::prelude::*;

verus! {

/// The address of the VGA text frame buffer in memory.
pub const FRAMEBUFFER: u32 = 0x000B8000;

/// One byte to store in the frame buffer.
#[derive(Clone, Copy, Debug, PartialEq, Eq, Structural)]
pub struct CellWrite {
    /// Distance of the byte from the start of the frame buffer.
    pub offset: isize,
    /// The byte.
    pub value: u8,
}

/// The attribute byte of a cell: the low four bits of `fg` above the low
/// four bits of `bg`.
pub open spec fn attribute(fg: u8, bg: u8) -> u8 {
    ((fg & 0x0F) << 4) | (bg & 0x0F)
}

/// The two bytes that put the character `c`, with the colours `fg` and
/// `bg`, in the cell at offset `i` of the frame buffer: the character's low
/// eight bits at `i`, the attribute at `i + 1`.
pub fn fb_write_cell(i: isize, c: char, fg: u8, bg: u8) -> (writes: (CellWrite, CellWrite))
    requires
        i < isize::MAX,
    ensures
        writes.0 == (CellWrite { offset: i, value: (c as u32 % 256) as u8 }),
        writes.1 == (CellWrite { offset: (i + 1) as isize, value: attribute(fg, bg) }),
{
    (
        CellWrite { offset: i, value: (c as u32 % 256) as u8 },
        CellWrite { offset: i + 1, value: ((fg & 0x0F) << 4) | (bg & 0x0F) },
    )
}

} // verus!
