use kernel_core::memory::paging::entry::{
    ADDRESS_MASK, ALL_FLAGS, HUGE_PAGE, MAX_ENTRY_FRAME, NO_EXECUTE, PRESENT, USER_ACCESSIBLE,
    WRITABLE,
};
use kernel_core::memory::paging::table::{
    Level1, Level2, Level3, NextTable, P4, TableError,
};
use kernel_core::memory::paging::{ENTRY_COUNT, Entry, EntryFlags, Level4, Table};
use kernel_core::memory::{AreaFrameAllocator, Frame, FrameAllocator, MemoryArea};

fn allocator() -> AreaFrameAllocator {
    AreaFrameAllocator::new(
        0x10000,
        0x20000,
        0x30000,
        0x31000,
        vec![MemoryArea { base_addr: 0x0, length: 0x100000 }],
    )
}

fn empty_allocator() -> AreaFrameAllocator {
    AreaFrameAllocator::new(0, 0, 0, 0, vec![])
}

fn flags(bits: u64) -> EntryFlags {
    EntryFlags::from_bits_truncate(bits)
}

#[test]
fn flag_bits() {
    assert_eq!(PRESENT, 0x1);
    assert_eq!(WRITABLE, 0x2);
    assert_eq!(USER_ACCESSIBLE, 0x4);
    assert_eq!(HUGE_PAGE, 0x80);
    assert_eq!(NO_EXECUTE, 0x8000_0000_0000_0000);
    assert_eq!(ALL_FLAGS & ADDRESS_MASK, 0);
    assert_eq!(MAX_ENTRY_FRAME, (1 << 40) - 1);
}

#[test]
fn flags_drop_the_address_bits() {
    assert_eq!(flags(0xFFFF_FFFF_FFFF_FFFF).bits(), ALL_FLAGS);
    assert_eq!(flags(0x0000_1234_5678_9003).bits(), 0x3);
    assert!(flags(0x83).contains(PRESENT | WRITABLE));
    assert!(flags(0x83).contains(HUGE_PAGE));
    assert!(!flags(0x03).contains(HUGE_PAGE));
    assert!(!flags(0x02).contains(PRESENT | WRITABLE));
}

#[test]
fn unused_entry() {
    let mut entry = Entry(0x1234_5003);
    assert!(!entry.is_unused());
    entry.set_unused();
    assert!(entry.is_unused());
    assert_eq!(entry, Entry(0));
    assert_eq!(entry.flags().bits(), 0);
    assert_eq!(entry.pointed_frame(), None);
}

#[test]
fn entry_points_to_its_frame() {
    let mut entry = Entry(0);
    entry.set(Frame { number: 0x12345 }, flags(PRESENT | WRITABLE));
    assert_eq!(entry, Entry(0x1234_5003));
    assert_eq!(entry.flags(), flags(PRESENT | WRITABLE));
    assert_eq!(entry.pointed_frame(), Some(Frame { number: 0x12345 }));
}

#[test]
fn entry_that_is_not_present_points_nowhere() {
    let mut entry = Entry(0);
    entry.set(Frame { number: 7 }, flags(WRITABLE));
    assert_eq!(entry, Entry(0x7002));
    assert_eq!(entry.pointed_frame(), None);
}

#[test]
fn entry_holds_the_highest_frame() {
    let mut entry = Entry(0);
    entry.set(Frame { number: MAX_ENTRY_FRAME }, flags(PRESENT | NO_EXECUTE));
    assert_eq!(entry, Entry(0x800F_FFFF_FFFF_F001));
    assert_eq!(entry.pointed_frame(), Some(Frame { number: MAX_ENTRY_FRAME }));
    assert_eq!(entry.flags(), flags(PRESENT | NO_EXECUTE));
}

#[test]
fn new_table_is_unused() {
    let table: Table<Level4> = Table::new();
    for index in 0..ENTRY_COUNT {
        assert!(table.index(index).is_unused());
    }
}

#[test]
fn zero_makes_every_entry_unused() {
    let mut table: Table<Level1> = Table::new();
    for index in 0..ENTRY_COUNT {
        *table.index_mut(index) = Entry(0xFFFF_FFFF_FFFF_FFFF - index as u64);
    }
    assert!(!table.index(0).is_unused());
    assert!(!table.index(511).is_unused());
    table.zero();
    for index in 0..ENTRY_COUNT {
        assert!(table.index(index).is_unused());
        assert_eq!(*table.index(index), Entry(0));
    }
}

#[test]
fn index_mut_changes_one_entry() {
    let mut table: Table<Level2> = Table::new();
    table.index_mut(5).set(Frame { number: 9 }, flags(PRESENT));
    assert_eq!(*table.index(5), Entry(0x9001));
    assert!(table.index(4).is_unused());
    assert!(table.index(6).is_unused());
}

#[test]
fn top_level_table_address() {
    assert_eq!(P4, 0xFFFF_FFFF_FFFF_F000);
}

#[test]
fn child_address_goes_through_the_recursive_mapping() {
    let mut table: Table<Level4> = Table::new();
    table.index_mut(0).set(Frame { number: 1 }, flags(PRESENT | WRITABLE));
    table.index_mut(42).set(Frame { number: 2 }, flags(PRESENT));
    table.index_mut(511).set(Frame { number: 3 }, flags(PRESENT));
    assert_eq!(table.next_table_address(0, P4), Some(0xFFFF_FFFF_FFE0_0000));
    assert_eq!(table.next_table_address(42, P4), Some(0xFFFF_FFFF_FFE2_A000));
    assert_eq!(table.next_table_address(511, P4), Some(0xFFFF_FFFF_FFFF_F000));
}

#[test]
fn child_address_at_the_lower_levels() {
    let mut p3: Table<Level3> = Table::new();
    p3.index_mut(3).set(Frame { number: 1 }, flags(PRESENT));
    assert_eq!(p3.next_table_address(3, 0xFFFF_FFFF_FFE2_A000), Some(0xFFFF_FFFF_C540_3000));
    let mut p2: Table<Level2> = Table::new();
    p2.index_mut(7).set(Frame { number: 1 }, flags(PRESENT));
    assert_eq!(p2.next_table_address(7, 0xFFFF_FFFF_C540_3000), Some(0xFFFF_FF8A_8060_7000));
}

#[test]
fn no_child_where_the_entry_is_absent_or_huge() {
    let mut table: Table<Level3> = Table::new();
    assert_eq!(table.next_table_address(1, P4), None);
    table.index_mut(1).set(Frame { number: 1 }, flags(WRITABLE));
    assert_eq!(table.next_table_address(1, P4), None);
    table.index_mut(2).set(Frame { number: 1 }, flags(PRESENT | HUGE_PAGE));
    assert_eq!(table.next_table_address(2, P4), None);
    table.index_mut(3).set(Frame { number: 1 }, flags(HUGE_PAGE));
    assert_eq!(table.next_table_address(3, P4), None);
}

#[test]
fn create_allocates_a_frame_for_a_missing_child() {
    let mut allocator = allocator();
    let mut table: Table<Level4> = Table::new();
    let child = table.next_table_create(42, P4, &mut allocator).unwrap();
    assert_eq!(
        child,
        NextTable { address: 0xFFFF_FFFF_FFE2_A000, allocated: Some(Frame { number: 0 }) }
    );
    assert_eq!(*table.index(42), Entry(0x0000_0000_0000_0003));
    assert_eq!(table.index(42).flags(), flags(PRESENT | WRITABLE));
    assert_eq!(table.index(42).pointed_frame(), Some(Frame { number: 0 }));
    assert_eq!(allocator.allocate_frame(), Some(Frame { number: 1 }));

    let second = table.next_table_create(43, P4, &mut allocator).unwrap();
    assert_eq!(second.allocated, Some(Frame { number: 2 }));
    assert_eq!(*table.index(43), Entry(0x2003));
    for index in (0..ENTRY_COUNT).filter(|index| *index != 42 && *index != 43) {
        assert!(table.index(index).is_unused());
    }
}

#[test]
fn created_child_is_found_again_and_is_zeroed() {
    let mut allocator = allocator();
    let mut table: Table<Level4> = Table::new();
    let created = table.next_table_create(7, P4, &mut allocator).unwrap();
    // What lies in the new frame is arbitrary.
    let mut child: Table<Level3> = Table::new();
    for index in 0..ENTRY_COUNT {
        *child.index_mut(index) = Entry(0xDEAD_BEEF_0000_0000 | index as u64);
    }
    child.prepare(&created);
    assert_eq!(table.next_table_address(7, P4), Some(created.address));
    for index in 0..ENTRY_COUNT {
        assert!(child.index(index).is_unused());
    }
}

#[test]
fn create_leaves_an_existing_child_alone() {
    let mut allocator = allocator();
    let mut table: Table<Level4> = Table::new();
    let created = table.next_table_create(7, P4, &mut allocator).unwrap();
    let entry = *table.index(7);
    let found = table.next_table_create(7, P4, &mut allocator).unwrap();
    assert_eq!(found, NextTable { address: created.address, allocated: None });
    assert_eq!(*table.index(7), entry);
    assert_eq!(allocator.allocate_frame(), Some(Frame { number: 1 }));

    let mut child: Table<Level3> = Table::new();
    *child.index_mut(9) = Entry(0x5003);
    child.prepare(&found);
    assert_eq!(*child.index(9), Entry(0x5003));
}

#[test]
fn huge_pages_are_told_apart() {
    let mut table: Table<Level3> = Table::new();
    table.index_mut(1).set(Frame { number: 0x200 }, flags(PRESENT | WRITABLE | HUGE_PAGE));
    table.index_mut(2).set(Frame { number: 0x400 }, flags(HUGE_PAGE));
    table.index_mut(3).set(Frame { number: 0x600 }, flags(PRESENT | WRITABLE));
    assert!(table.maps_huge_page(1));
    assert!(table.maps_huge_page(2));
    assert!(!table.maps_huge_page(3));
    assert!(!table.maps_huge_page(4));
    assert_eq!(table.next_table_address(1, P4), None);
    assert_eq!(table.next_table_address(2, P4), None);
}

#[test]
fn create_beside_a_huge_page_leaves_it_alone() {
    let mut allocator = allocator();
    let mut table: Table<Level3> = Table::new();
    table.index_mut(1).set(Frame { number: 0x200 }, flags(PRESENT | WRITABLE | HUGE_PAGE));
    assert!(!table.maps_huge_page(2));
    let child = table.next_table_create(2, P4, &mut allocator).unwrap();
    assert_eq!(child.allocated, Some(Frame { number: 0 }));
    assert_eq!(*table.index(1), Entry(0x0020_0083));
    assert_eq!(*table.index(2), Entry(0x0003));
}

#[test]
fn create_fails_without_frames() {
    let mut allocator = empty_allocator();
    let mut table: Table<Level2> = Table::new();
    assert_eq!(table.next_table_create(0, P4, &mut allocator), Err(TableError::NoFramesAvailable));
    assert!(table.index(0).is_unused());
}

#[test]
fn create_refuses_a_frame_that_does_not_fit() {
    let mut allocator = AreaFrameAllocator::new(
        0,
        0,
        0,
        0,
        vec![MemoryArea { base_addr: 1 << 52, length: 0x2000 }],
    );
    let mut table: Table<Level4> = Table::new();
    assert_eq!(
        table.next_table_create(0, P4, &mut allocator),
        Err(TableError::FrameOutOfRange(Frame { number: 1 << 40 }))
    );
    assert!(table.index(0).is_unused());
    assert_eq!(allocator.allocate_frame(), Some(Frame { number: (1 << 40) + 1 }));
}
