//! A page table and its place in the hierarchy.
//!
//! The tables are reached through the recursive mapping: the last entry of
//! the top-level table points to that table itself, so that every table of
//! the hierarchy has a virtual address that follows from the address of its
//! parent and its index there. The top-level table is at [`P4`].
//!
//! A table here is 512 entries and nothing else. Where a child is needed this
//! module computes the address at which the child appears; looking there is
//! left to the caller, who knows that the mapping is in place.

use super::entry::{
    ALL_FLAGS, Entry, EntryFlags, HUGE_PAGE, MAX_ENTRY_FRAME, PRESENT, WRITABLE,
    lemma_entry_keeps_frame_and_flags,
};
use super::{ENTRY_COUNT, VirtualAddress};
use crate::memory::{Frame, FrameAllocator};
use core::marker::PhantomData;
use vstd::prelude::*;

verus! {

/// Virtual address of the top-level table under the recursive mapping.
pub const P4: VirtualAddress = 0xffffffff_fffff000;

/// A level of the hierarchy.
pub trait TableLevel {

}

/// Level 4, the top: its entries point to tables of level 3.
pub struct Level4;

/// Level 3: its entries point to tables of level 2.
pub struct Level3;

/// Level 2: its entries point to tables of level 1.
pub struct Level2;

/// Level 1, the bottom: its entries point to the frames of pages.
pub struct Level1;

impl TableLevel for Level4 {

}

impl TableLevel for Level3 {

}

impl TableLevel for Level2 {

}

impl TableLevel for Level1 {

}

/// A level whose entries point to further tables. Level 1 is none: there is
/// no way to ask a table of level 1 for a child.
pub trait HierarchicalLevel: TableLevel {
    /// The level of the children.
    type NextLevel: TableLevel;
}

impl HierarchicalLevel for Level4 {
    type NextLevel = Level3;
}

impl HierarchicalLevel for Level3 {
    type NextLevel = Level2;
}

impl HierarchicalLevel for Level2 {
    type NextLevel = Level1;
}

/// Why a child table could not be had.
#[derive(Clone, Copy, Debug, PartialEq, Eq, Structural)]
pub enum TableError {
    /// A new table was needed and the allocator had no frame left.
    NoFramesAvailable,
    /// A new table was needed and the allocator gave this frame, which lies
    /// above what an entry can point to.
    FrameOutOfRange(Frame),
}

/// A child table, as [`Table::next_table_create`] found or made it.
#[derive(Clone, Copy, Debug, PartialEq, Eq, Structural)]
pub struct NextTable {
    /// Virtual address at which the child appears.
    pub address: VirtualAddress,
    /// The frame that was allocated for the child, where there was none
    /// before. What the frame holds is arbitrary: the child has to be
    /// zeroed before anything else is done with it.
    pub allocated: Option<Frame>,
}

/// The address at which the child under entry `index` of the table at
/// `table_address` appears: the recursive mapping is gone through once
/// more, and `index` takes the place of the last step.
pub open spec fn child_address(table_address: VirtualAddress, index: usize) -> VirtualAddress {
    (table_address << 9) | ((index as u64) << 12)
}

/// The entries of a table in which nothing is mapped.
pub open spec fn unused_entries() -> Seq<Entry> {
    Seq::new(ENTRY_COUNT as nat, |index: int| Entry(0))
}

/// The entries that [`Table::prepare`] leaves of a table that held `found`
/// and was reported as `child`: unused ones where the child's frame has just
/// been allocated, `found` where the child was there before.
pub open spec fn prepared_entries(found: Seq<Entry>, child: NextTable) -> Seq<Entry> {
    if child.allocated is Some {
        unused_entries()
    } else {
        found
    }
}

/// The flags of an entry that points to a table.
pub open spec fn table_flags() -> EntryFlags {
    EntryFlags { bits: PRESENT | WRITABLE }
}

/// A paging table.
///
/// Each table has 2^9 = 512 entries.
///
/// The x86 architecture uses a 4-level page table in 64-bit mode. Bits 48
/// to 63 of a virtual address are copies of bit 47. The following 36 bits are
/// the indexes into the four tables, 9 bits for each, and the last 12 bits
/// are the offset in the page of 4 KiB.
pub struct Table<L: TableLevel> {
    entries: [Entry; 512],
    level: PhantomData<L>,
}

impl<L: TableLevel> Table<L> {
    /// The 512 entries.
    pub closed spec fn entries(&self) -> Seq<Entry> {
        self.entries@
    }

    /// A table of unused entries.
    pub fn new() -> (table: Self)
        ensures
            table.entries() == unused_entries(),
    {
        let table = Table { entries: [Entry(0);512], level: PhantomData };
        assert(table.entries() =~= unused_entries());
        table
    }

    /// Make every entry unused.
    pub fn zero(&mut self)
        ensures
            final(self).entries() == unused_entries(),
    {
        let mut index: usize = 0;
        while index < ENTRY_COUNT
            invariant
                index <= ENTRY_COUNT,
                self.entries@.len() == ENTRY_COUNT,
                forall|done: int| 0 <= done < index ==> self.entries@[done].spec_is_unused(),
            decreases ENTRY_COUNT - index,
        {
            let mut entry = self.entries[index];
            entry.set_unused();
            self.entries[index] = entry;
            index += 1;
        }
        assert(self.entries() =~= unused_entries());
    }

    /// Make the table, which was found as `child` by
    /// [`Table::next_table_create`], fit for use: where its frame has just
    /// been allocated every entry is made unused, where the child was there
    /// before nothing is touched.
    pub fn prepare(&mut self, child: &NextTable)
        ensures
            final(self).entries() == prepared_entries(old(self).entries(), *child),
    {
        if child.allocated.is_some() {
            self.zero();
        }
    }

    /// The entry at `index`.
    pub fn index(&self, index: usize) -> (entry: &Entry)
        requires
            index < ENTRY_COUNT,
        ensures
            self.entries().len() == ENTRY_COUNT,
            *entry == self.entries()[index as int],
    {
        &self.entries[index]
    }

    /// The entry at `index`, to change it.
    pub fn index_mut(&mut self, index: usize) -> (entry: &mut Entry)
        requires
            index < ENTRY_COUNT,
        ensures
            *entry == old(self).entries()[index as int],
            final(self).entries() == old(self).entries().update(index as int, *final(entry)),
    {
        &mut self.entries[index]
    }
}

impl<L: HierarchicalLevel> Table<L> {
    /// The address at which the child under entry `index` appears, for a
    /// table that lies at `table_address`: there is a child where the entry
    /// is present and does not map a huge page.
    pub open spec fn spec_next_table_address(
        &self,
        index: usize,
        table_address: VirtualAddress,
    ) -> Option<VirtualAddress> {
        let entry_flags = self.entries()[index as int].spec_flags();
        if entry_flags.spec_contains(PRESENT) && !entry_flags.spec_contains(HUGE_PAGE) {
            Some(child_address(table_address, index))
        } else {
            None
        }
    }

    /// The child under entry `index`, for a table that lies at
    /// `table_address`, where `memory` holds the entries of the table that
    /// appears at each address.
    pub open spec fn spec_next_table(
        &self,
        index: usize,
        table_address: VirtualAddress,
        memory: Map<VirtualAddress, Seq<Entry>>,
    ) -> Option<Seq<Entry>> {
        match self.spec_next_table_address(index, table_address) {
            Some(address) => Some(memory[address]),
            None => None,
        }
    }

    /// The address at which the child under entry `index` appears, for a
    /// table that lies at `table_address`. This is the one place where the
    /// recursive mapping is relied on.
    pub fn next_table_address(&self, index: usize, table_address: VirtualAddress) -> (address:
        Option<VirtualAddress>)
        requires
            index < ENTRY_COUNT,
        ensures
            address == self.spec_next_table_address(index, table_address),
    {
        let entry_flags = self.entries[index].flags();
        if entry_flags.contains(PRESENT) && !entry_flags.contains(HUGE_PAGE) {
            Some((table_address << 9) | ((index as u64) << 12))
        } else {
            None
        }
    }

    /// Whether entry `index` maps a huge page. Such an entry has no child,
    /// and none can be made under it.
    pub open spec fn spec_maps_huge_page(&self, index: usize) -> bool {
        self.entries()[index as int].spec_flags().spec_contains(HUGE_PAGE)
    }

    /// Whether entry `index` maps a huge page.
    pub fn maps_huge_page(&self, index: usize) -> (huge: bool)
        requires
            index < ENTRY_COUNT,
        ensures
            huge == self.spec_maps_huge_page(index),
    {
        self.entries[index].flags().contains(HUGE_PAGE)
    }

    /// Find the child under entry `index` of this table, which lies at
    /// `table_address`, and make one where there is none: a frame is taken
    /// from `allocator` and the entry is pointed to it, present and writable.
    ///
    /// The entry must not map a huge page: the mapping code does not support
    /// huge pages. Nothing is done to a table that has its child. A frame
    /// that the entry cannot point to is lost.
    pub fn next_table_create<A: FrameAllocator>(
        &mut self,
        index: usize,
        table_address: VirtualAddress,
        allocator: &mut A,
    ) -> (result: Result<NextTable, TableError>)
        requires
            index < ENTRY_COUNT,
            !old(self).spec_maps_huge_page(index),
            old(allocator).wf(),
        ensures
            final(allocator).wf(),
            final(self).entries().len() == ENTRY_COUNT,
            match result {
                Ok(child) => {
                    &&& child.address == child_address(table_address, index)
                    &&& final(self).spec_next_table_address(index, table_address) == Some(child.address)
                    &&& match child.allocated {
                        None => {
                            &&& old(self).spec_next_table_address(index, table_address) is Some
                            &&& final(self).entries() == old(self).entries()
                            &&& *final(allocator) == *old(allocator)
                        },
                        Some(frame) => {
                            &&& old(self).spec_next_table_address(index, table_address) is None
                            &&& old(allocator).allocates(Some(frame), final(allocator))
                            &&& frame.number <= MAX_ENTRY_FRAME
                            &&& final(self).entries() == old(self).entries().update(
                                index as int,
                                Entry::spec_pointing_to(frame, table_flags()),
                            )
                        },
                    }
                },
                Err(error) => {
                    &&& final(self).entries() == old(self).entries()
                    &&& old(self).spec_next_table_address(index, table_address) is None
                    &&& match error {
                        TableError::NoFramesAvailable => old(allocator).allocates(
                            None,
                            final(allocator),
                        ),
                        TableError::FrameOutOfRange(frame) => {
                            &&& old(allocator).allocates(Some(frame), final(allocator))
                            &&& frame.number > MAX_ENTRY_FRAME
                        },
                    }
                },
            },
    {
        let address = (table_address << 9) | ((index as u64) << 12);
        let entry_flags = self.entries[index].flags();
        if entry_flags.contains(PRESENT) {
            return Ok(NextTable { address, allocated: None });
        }
        let frame = match allocator.allocate_frame() {
            Some(frame) => frame,
            None => {
                return Err(TableError::NoFramesAvailable);
            },
        };
        if frame.number > MAX_ENTRY_FRAME {
            return Err(TableError::FrameOutOfRange(frame));
        }
        let flags = EntryFlags::from_bits_truncate(PRESENT | WRITABLE);
        proof {
            lemma_table_flags();
            lemma_entry_keeps_frame_and_flags(frame, table_flags());
        }
        let mut entry = self.entries[index];
        entry.set(frame, flags);
        self.entries[index] = entry;
        Ok(NextTable { address, allocated: Some(frame) })
    }
}

/// The flags of an entry that points to a table say that the child is
/// present and writable, and that it is no huge page.
pub proof fn lemma_table_flags()
    ensures
        EntryFlags::spec_from_bits_truncate(PRESENT | WRITABLE) == table_flags(),
        table_flags().bits & !ALL_FLAGS == 0,
        table_flags().spec_contains(PRESENT),
        table_flags().spec_contains(WRITABLE),
        !table_flags().spec_contains(HUGE_PAGE),
{
    assert(((1u64 << 0) | (1u64 << 1)) & 0x8000_0000_0000_01FFu64 == (1u64 << 0) | (1u64 << 1))
        by (bit_vector);
    assert(((1u64 << 0) | (1u64 << 1)) & !0x8000_0000_0000_01FFu64 == 0) by (bit_vector);
    assert(((1u64 << 0) | (1u64 << 1)) & (1u64 << 0) == (1u64 << 0)) by (bit_vector);
    assert(((1u64 << 0) | (1u64 << 1)) & (1u64 << 1) == (1u64 << 1)) by (bit_vector);
    assert(((1u64 << 0) | (1u64 << 1)) & (1u64 << 7) != (1u64 << 7)) by (bit_vector);
}

/// Every entry of a table in which nothing is mapped is unused.
pub proof fn lemma_unused_entries()
    ensures
        unused_entries().len() == ENTRY_COUNT,
        forall|index: int|
            0 <= index < ENTRY_COUNT ==> (#[trigger] unused_entries()[index]).spec_is_unused(),
{
}

/// A child that was just made is found again under its entry, and all its
/// 512 entries are unused. `after` is the table that
/// [`Table::next_table_create`] leaves of `before` when it takes `frame` for
/// the missing child under entry `index` and reports it as `child`. The
/// memory at the child's address, which held `found`, whatever that was,
/// then holds what [`Table::prepare`] leaves of it.
pub proof fn lemma_created_child_is_unused<L: HierarchicalLevel>(
    before: Table<L>,
    after: Table<L>,
    index: usize,
    table_address: VirtualAddress,
    frame: Frame,
    child: NextTable,
    found: Seq<Entry>,
    memory: Map<VirtualAddress, Seq<Entry>>,
)
    requires
        index < ENTRY_COUNT,
        before.entries().len() == ENTRY_COUNT,
        frame.number <= MAX_ENTRY_FRAME,
        after.entries() == before.entries().update(
            index as int,
            Entry::spec_pointing_to(frame, table_flags()),
        ),
        child == (NextTable {
            address: child_address(table_address, index),
            allocated: Some(frame),
        }),
    ensures
        after.spec_next_table_address(index, table_address) == Some(child.address),
        after.spec_next_table(
            index,
            table_address,
            memory.insert(child.address, prepared_entries(found, child)),
        ) == Some(unused_entries()),
        forall|slot: int|
            0 <= slot < ENTRY_COUNT ==> (#[trigger] unused_entries()[slot]).spec_is_unused(),
{
    lemma_table_flags();
    lemma_entry_keeps_frame_and_flags(frame, table_flags());
}

} // verus!
