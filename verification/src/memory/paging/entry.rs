//! One slot of a page table.

use crate::memory::{Frame, PAGE_SIZE};
use vstd::prelude::*;

verus! {

/// The page or table behind the entry is in memory.
pub const PRESENT: u64 = 1 << 0;

/// The memory behind the entry may be written to.
pub const WRITABLE: u64 = 1 << 1;

/// The memory behind the entry may be reached from user mode.
pub const USER_ACCESSIBLE: u64 = 1 << 2;

/// Writes go straight to memory.
pub const WRITE_THROUGH: u64 = 1 << 3;

/// The memory behind the entry is not cached.
pub const NO_CACHE: u64 = 1 << 4;

/// The CPU sets this bit when the entry is used.
pub const ACCESSED: u64 = 1 << 5;

/// The CPU sets this bit when the page is written to.
pub const DIRTY: u64 = 1 << 6;

/// The entry maps a huge page and not a table. Only in tables of level 3
/// and 2.
pub const HUGE_PAGE: u64 = 1 << 7;

/// The page stays in the translation cache when the address space changes.
pub const GLOBAL: u64 = 1 << 8;

/// No code on the page is executed.
pub const NO_EXECUTE: u64 = 1 << 63;

/// All the bits of an entry that are flags.
pub const ALL_FLAGS: u64 = 0x8000_0000_0000_01FF;

/// The bits of an entry that hold the physical address of a frame.
pub const ADDRESS_MASK: u64 = 0x000f_ffff_ffff_f000;

/// Number of the highest frame whose address an entry can hold.
pub const MAX_ENTRY_FRAME: u64 = 0xff_ffff_ffff;

/// A set of flags of an entry.
#[derive(Clone, Copy, Debug, PartialEq, Eq, Structural)]
pub struct EntryFlags {
    /// The flags as they lie in an entry. No other bit is set.
    pub bits: u64,
}

impl EntryFlags {
    /// The flags among `bits`.
    pub open spec fn spec_from_bits_truncate(bits: u64) -> EntryFlags {
        EntryFlags { bits: bits & ALL_FLAGS }
    }

    /// Whether all the flags of `flags` are in the set.
    pub open spec fn spec_contains(self, flags: u64) -> bool {
        self.bits & flags == flags
    }

    /// The flags among `bits`.
    pub fn from_bits_truncate(bits: u64) -> (flags: EntryFlags)
        ensures
            flags == Self::spec_from_bits_truncate(bits),
    {
        EntryFlags { bits: bits & ALL_FLAGS }
    }

    /// The flags as they lie in an entry.
    pub fn bits(&self) -> (bits: u64)
        ensures
            bits == self.bits,
    {
        self.bits
    }

    /// Whether all the flags of `flags` are in the set.
    pub fn contains(&self, flags: u64) -> (all_set: bool)
        ensures
            all_set == self.spec_contains(flags),
    {
        self.bits & flags == flags
    }
}

/// One slot of a page table: the physical address of a frame, and flags.
#[derive(Clone, Copy, Debug, PartialEq, Eq, Structural)]
pub struct Entry(pub u64);

impl Entry {
    /// Whether the entry is all zero.
    pub open spec fn spec_is_unused(self) -> bool {
        self.0 == 0
    }

    /// The entry's flags.
    pub open spec fn spec_flags(self) -> EntryFlags {
        EntryFlags::spec_from_bits_truncate(self.0)
    }

    /// The frame that the entry points to, if the entry is present.
    pub open spec fn spec_pointed_frame(self) -> Option<Frame> {
        if self.spec_flags().spec_contains(PRESENT) {
            Some(Frame { number: (self.0 & ADDRESS_MASK) / PAGE_SIZE })
        } else {
            None
        }
    }

    /// The entry that points to `frame` with the flags `flags`.
    pub open spec fn spec_pointing_to(frame: Frame, flags: EntryFlags) -> Entry {
        Entry(((frame.number * PAGE_SIZE) as u64) | flags.bits)
    }

    /// Whether the entry is all zero.
    pub fn is_unused(&self) -> (unused: bool)
        ensures
            unused == self.spec_is_unused(),
    {
        self.0 == 0
    }

    /// Make the entry all zero.
    pub fn set_unused(&mut self)
        ensures
            final(self).0 == 0,
            final(self).spec_is_unused(),
    {
        self.0 = 0;
    }

    /// The entry's flags.
    pub fn flags(&self) -> (flags: EntryFlags)
        ensures
            flags == self.spec_flags(),
    {
        EntryFlags::from_bits_truncate(self.0)
    }

    /// The frame that the entry points to, if the entry is present.
    pub fn pointed_frame(&self) -> (frame: Option<Frame>)
        ensures
            frame == self.spec_pointed_frame(),
    {
        if self.flags().contains(PRESENT) {
            Some(Frame::containing_address(self.0 & ADDRESS_MASK))
        } else {
            None
        }
    }

    /// Point the entry to `frame`, with the flags `flags`. The address of
    /// `frame` has to fit in the 40 bits an entry has for it.
    pub fn set(&mut self, frame: Frame, flags: EntryFlags)
        requires
            frame.number <= MAX_ENTRY_FRAME,
        ensures
            *final(self) == Self::spec_pointing_to(frame, flags),
    {
        assert(frame.number <= crate::memory::max_frame_number()) by {
            assert(0xff_ffff_ffffu64 <= u64::MAX / 4096) by (bit_vector);
        }
        self.0 = frame.start_address() | flags.bits();
    }
}

/// An entry that was pointed to a frame gives that frame and those flags
/// back: the frame where the flags say that the entry is present, the flags
/// where they are flags and nothing else.
pub proof fn lemma_entry_keeps_frame_and_flags(frame: Frame, flags: EntryFlags)
    requires
        frame.number <= MAX_ENTRY_FRAME,
        flags.bits & !ALL_FLAGS == 0,
    ensures
        Entry::spec_pointing_to(frame, flags).spec_flags() == flags,
        flags.spec_contains(PRESENT) ==> Entry::spec_pointing_to(frame, flags).spec_pointed_frame()
            == Some(frame),
        !flags.spec_contains(PRESENT) ==> Entry::spec_pointing_to(frame, flags).spec_pointed_frame() is None,
{
    let number = frame.number;
    let bits = flags.bits;
    let address = (number * PAGE_SIZE) as u64;
    assert(address == number * 4096);
    assert(address == number << 12) by (bit_vector)
        requires
            number <= 0xff_ffff_ffffu64,
            address == number * 4096,
    ;
    assert(((number << 12) | bits) & 0x8000_0000_0000_01FFu64 == bits) by (bit_vector)
        requires
            number <= 0xff_ffff_ffffu64,
            bits & !0x8000_0000_0000_01FFu64 == 0,
    ;
    assert((((number << 12) | bits) & 0x000f_ffff_ffff_f000u64) / 4096 == number) by (bit_vector)
        requires
            number <= 0xff_ffff_ffffu64,
            bits & !0x8000_0000_0000_01FFu64 == 0,
    ;
}

/// An entry that is all zero has no flag set and points to no frame.
pub proof fn lemma_unused_entry_is_absent(entry: Entry)
    requires
        entry.spec_is_unused(),
    ensures
        entry.spec_flags().bits == 0,
        !entry.spec_flags().spec_contains(PRESENT),
        entry.spec_pointed_frame() is None,
{
    assert(0u64 & 0x8000_0000_0000_01FFu64 == 0) by (bit_vector);
    assert(0u64 & (1u64 << 0) != (1u64 << 0)) by (bit_vector);
}

} // verus!
