use kernel_core::memory::paging::entry::MAX_ENTRY_FRAME;
use kernel_core::memory::{
    AllocError, AreaFrameAllocator, Frame, FrameAllocator, KernelSection, MemoryArea, PAGE_SIZE,
    kernel_extent,
};

fn single_area() -> AreaFrameAllocator {
    AreaFrameAllocator::new(
        0x10000,
        0x20000,
        0x30000,
        0x31000,
        vec![MemoryArea { base_addr: 0x0, length: 0x100000 }],
    )
}

#[test]
fn containing_address_divides_by_page_size() {
    assert_eq!(Frame::containing_address(0), Frame { number: 0 });
    assert_eq!(Frame::containing_address(4095), Frame { number: 0 });
    assert_eq!(Frame::containing_address(4096), Frame { number: 1 });
    assert_eq!(Frame::containing_address(8191), Frame { number: 1 });
    assert_eq!(Frame::containing_address(8192), Frame { number: 2 });
    assert_eq!(Frame::containing_address(0x12345678), Frame { number: 0x12345 });
    assert_eq!(Frame::containing_address(u64::MAX), Frame { number: u64::MAX / 4096 });
    assert_eq!(PAGE_SIZE, 4096);
}

#[test]
fn start_address_multiplies_by_page_size() {
    assert_eq!(Frame { number: 0 }.start_address(), 0);
    assert_eq!(Frame { number: 3 }.start_address(), 0x3000);
    assert_eq!(Frame::containing_address(0x5123).start_address(), 0x5000);
}

#[test]
fn frames_are_ordered_by_number() {
    assert!(Frame { number: 1 } < Frame { number: 2 });
    assert!(Frame { number: 7 } == Frame { number: 7 });
    assert!(Frame { number: 9 } > Frame { number: 8 });
}

#[test]
fn first_frame_of_single_area_is_zero() {
    let mut allocator = single_area();
    assert_eq!(allocator.allocate_frame(), Some(Frame { number: 0 }));
}

#[test]
fn single_area_skips_kernel_and_boot_information() {
    let mut allocator = single_area();
    let mut frames = Vec::new();
    while let Some(frame) = allocator.allocate_frame() {
        frames.push(frame.number);
    }
    let mut expected: Vec<u64> = Vec::new();
    expected.extend(0x00..0x10);
    expected.extend(0x21..0x30);
    expected.extend(0x32..0x100);
    assert_eq!(frames, expected);
}

#[test]
fn jump_past_kernel_goes_to_frame_after_kernel_end() {
    let mut allocator = single_area();
    for number in 0..0x10 {
        assert_eq!(allocator.allocate_frame(), Some(Frame { number }));
    }
    assert_eq!(allocator.allocate_frame(), Some(Frame { number: 0x21 }));
}

#[test]
fn jump_past_boot_information() {
    let mut allocator = single_area();
    let mut last = 0;
    while last < 0x2f {
        last = allocator.allocate_frame().unwrap().number;
    }
    assert_eq!(allocator.allocate_frame(), Some(Frame { number: 0x32 }));
}

#[test]
fn allocated_frames_increase_strictly() {
    let mut allocator = single_area();
    let mut previous = allocator.allocate_frame().unwrap();
    while let Some(frame) = allocator.allocate_frame() {
        assert!(frame > previous);
        previous = frame;
    }
}

#[test]
fn reserved_frames_are_never_allocated() {
    let mut allocator = AreaFrameAllocator::new(
        0x3000,
        0x5fff,
        0x0,
        0x0fff,
        vec![
            MemoryArea { base_addr: 0x0, length: 0x4000 },
            MemoryArea { base_addr: 0x4000, length: 0x6000 },
        ],
    );
    let mut frames = Vec::new();
    while let Some(frame) = allocator.allocate_frame() {
        assert!(!(3..=5).contains(&frame.number));
        assert!(frame.number != 0);
        frames.push(frame.number);
    }
    assert_eq!(frames, vec![1, 2, 6, 7, 8, 9]);
}

#[test]
fn exhausted_allocator_stays_exhausted() {
    let mut allocator = AreaFrameAllocator::new(
        0x100000,
        0x100fff,
        0x200000,
        0x200fff,
        vec![MemoryArea { base_addr: 0x1000, length: 0x2000 }],
    );
    assert_eq!(allocator.allocate_frame(), Some(Frame { number: 1 }));
    assert_eq!(allocator.allocate_frame(), Some(Frame { number: 2 }));
    assert_eq!(allocator.allocate_frame(), None);
    assert_eq!(allocator.allocate_frame(), None);
    assert_eq!(allocator.allocate_frame(), None);
}

#[test]
fn no_areas_no_frames() {
    let mut allocator = AreaFrameAllocator::new(0x1000, 0x1fff, 0x2000, 0x2fff, vec![]);
    assert_eq!(allocator.allocate_frame(), None);
}

#[test]
fn areas_are_used_from_the_lowest_base_up() {
    let mut allocator = AreaFrameAllocator::new(
        0x100000,
        0x100fff,
        0x200000,
        0x200fff,
        vec![
            MemoryArea { base_addr: 0x9000, length: 0x2000 },
            MemoryArea { base_addr: 0x2000, length: 0x2000 },
            MemoryArea { base_addr: 0x5000, length: 0x1000 },
        ],
    );
    let mut frames = Vec::new();
    while let Some(frame) = allocator.allocate_frame() {
        frames.push(frame.number);
    }
    assert_eq!(frames, vec![2, 3, 5, 9, 10]);
}

#[test]
fn overlapping_areas_give_each_frame_once() {
    let mut allocator = AreaFrameAllocator::new(
        0x100000,
        0x100fff,
        0x200000,
        0x200fff,
        vec![
            MemoryArea { base_addr: 0x0, length: 0x3000 },
            MemoryArea { base_addr: 0x0, length: 0x5000 },
            MemoryArea { base_addr: 0x2000, length: 0x2000 },
        ],
    );
    let mut frames = Vec::new();
    while let Some(frame) = allocator.allocate_frame() {
        frames.push(frame.number);
    }
    assert_eq!(frames, vec![0, 1, 2, 3, 4]);
}

#[test]
fn area_that_starts_inside_a_frame_gives_that_frame() {
    let mut allocator = AreaFrameAllocator::new(
        0x100000,
        0x100fff,
        0x200000,
        0x200fff,
        vec![MemoryArea { base_addr: 0x1800, length: 0x1000 }],
    );
    assert_eq!(allocator.allocate_frame(), Some(Frame { number: 1 }));
    assert_eq!(allocator.allocate_frame(), Some(Frame { number: 2 }));
    assert_eq!(allocator.allocate_frame(), None);
}

#[test]
fn kernel_that_covers_the_area_leaves_nothing() {
    let mut allocator = AreaFrameAllocator::new(
        0x0,
        0xffff,
        0x200000,
        0x200fff,
        vec![MemoryArea { base_addr: 0x2000, length: 0x3000 }],
    );
    assert_eq!(allocator.allocate_frame(), None);
}

#[test]
fn area_at_the_top_of_the_address_space() {
    let mut allocator = AreaFrameAllocator::new(
        0x0,
        0xfff,
        0x1000,
        0x1fff,
        vec![MemoryArea { base_addr: u64::MAX - 0x1fff, length: 0x2000 }],
    );
    let top = u64::MAX / 4096;
    assert!(top > MAX_ENTRY_FRAME);
    assert_eq!(allocator.allocate_frame(), Some(Frame { number: top - 1 }));
    assert_eq!(allocator.allocate_frame(), Some(Frame { number: top }));
    assert_eq!(allocator.allocate_frame(), None);
}

#[test]
fn deallocation_is_refused() {
    let mut allocator = single_area();
    let frame = allocator.allocate_frame().unwrap();
    assert_eq!(allocator.deallocate_frame(frame), Err(AllocError::DeallocationUnsupported));
    assert_eq!(allocator.allocate_frame(), Some(Frame { number: 1 }));
}

#[test]
fn kernel_extent_is_lowest_start_and_highest_end() {
    assert_eq!(kernel_extent(&[]), None);
    assert_eq!(kernel_extent(&[KernelSection { addr: 0x100000, size: 0x2000 }]), Some((0x100000, 0x102000)));
    assert_eq!(
        kernel_extent(&[
            KernelSection { addr: 0x104000, size: 0x1000 },
            KernelSection { addr: 0x100000, size: 0x3000 },
            KernelSection { addr: 0x103000, size: 0x4000 },
            KernelSection { addr: 0x101000, size: 0 },
        ]),
        Some((0x100000, 0x107000))
    );
    assert_eq!(
        kernel_extent(&[KernelSection { addr: u64::MAX - 1, size: 1 }, KernelSection { addr: 0, size: 0 }]),
        Some((0, u64::MAX))
    );
}

#[test]
fn area_is_well_formed_when_not_empty_and_within_the_address_space() {
    assert!(MemoryArea { base_addr: 0, length: 1 }.is_wf());
    assert!(MemoryArea { base_addr: 0x1000, length: 0x1000 }.is_wf());
    assert!(MemoryArea { base_addr: u64::MAX, length: 1 }.is_wf());
    assert!(MemoryArea { base_addr: 1, length: u64::MAX }.is_wf());
    assert!(!MemoryArea { base_addr: 0, length: 0 }.is_wf());
    assert!(!MemoryArea { base_addr: 0x1000, length: 0 }.is_wf());
    assert!(!MemoryArea { base_addr: u64::MAX, length: 2 }.is_wf());
    assert!(!MemoryArea { base_addr: 2, length: u64::MAX }.is_wf());
}

#[test]
fn new_allocator_selects_the_area_with_the_lowest_base() {
    let allocator = AreaFrameAllocator::new(
        0x100000,
        0x100fff,
        0x200000,
        0x200fff,
        vec![
            MemoryArea { base_addr: 0x9000, length: 0x2000 },
            MemoryArea { base_addr: 0x3000, length: 0x1000 },
            MemoryArea { base_addr: 0x5000, length: 0x1000 },
        ],
    );
    assert_eq!(allocator.current_area(), Some(MemoryArea { base_addr: 0x3000, length: 0x1000 }));
    assert_eq!(allocator.next_free_frame(), Frame { number: 3 });
}

#[test]
fn new_allocator_without_areas_selects_none() {
    let allocator = AreaFrameAllocator::new(0x1000, 0x1fff, 0x2000, 0x2fff, vec![]);
    assert_eq!(allocator.current_area(), None);
    assert_eq!(allocator.next_free_frame(), Frame { number: 0 });
}

#[test]
fn of_areas_with_the_same_base_the_first_is_selected() {
    let allocator = AreaFrameAllocator::new(
        0x100000,
        0x100fff,
        0x200000,
        0x200fff,
        vec![
            MemoryArea { base_addr: 0x4000, length: 0x1000 },
            MemoryArea { base_addr: 0x2000, length: 0x3000 },
            MemoryArea { base_addr: 0x2000, length: 0x1000 },
        ],
    );
    assert_eq!(allocator.current_area(), Some(MemoryArea { base_addr: 0x2000, length: 0x3000 }));
}

#[test]
fn selection_moves_to_the_next_lowest_area_that_still_has_frames() {
    let low = MemoryArea { base_addr: 0x2000, length: 0x2000 };
    let middle = MemoryArea { base_addr: 0x5000, length: 0x1000 };
    let high = MemoryArea { base_addr: 0x9000, length: 0x2000 };
    // An area that lies inside `low` and is used up together with it.
    let inside = MemoryArea { base_addr: 0x3000, length: 0x1000 };
    let mut allocator = AreaFrameAllocator::new(
        0x100000,
        0x100fff,
        0x200000,
        0x200fff,
        vec![high, inside, low, middle],
    );
    assert_eq!(allocator.current_area(), Some(low));
    assert_eq!(allocator.allocate_frame(), Some(Frame { number: 2 }));
    assert_eq!(allocator.allocate_frame(), Some(Frame { number: 3 }));
    // The area stays selected until the next allocation looks past its end.
    assert_eq!(allocator.current_area(), Some(low));
    assert_eq!(allocator.next_free_frame(), Frame { number: 4 });
    assert_eq!(allocator.allocate_frame(), Some(Frame { number: 5 }));
    assert_eq!(allocator.current_area(), Some(middle));
    assert_eq!(allocator.allocate_frame(), Some(Frame { number: 9 }));
    assert_eq!(allocator.current_area(), Some(high));
    assert_eq!(allocator.allocate_frame(), Some(Frame { number: 10 }));
    assert_eq!(allocator.allocate_frame(), None);
    assert_eq!(allocator.current_area(), None);
}

#[test]
fn exhausted_single_area_leaves_the_mark() {
    let mut allocator = AreaFrameAllocator::new(
        0x100000,
        0x100fff,
        0x200000,
        0x200fff,
        vec![MemoryArea { base_addr: 0x1000, length: 0x2000 }],
    );
    assert_eq!(allocator.allocate_frame(), Some(Frame { number: 1 }));
    assert_eq!(allocator.allocate_frame(), Some(Frame { number: 2 }));
    assert_eq!(allocator.next_free_frame(), Frame { number: 3 });
    assert_eq!(allocator.allocate_frame(), None);
    assert_eq!(allocator.next_free_frame(), Frame { number: 3 });
    assert_eq!(allocator.current_area(), None);
    assert_eq!(allocator.allocate_frame(), None);
    assert_eq!(allocator.next_free_frame(), Frame { number: 3 });
}

#[test]
fn exhaustion_behind_the_kernel_leaves_the_mark_past_the_kernel() {
    let mut allocator = AreaFrameAllocator::new(
        0x2000,
        0x8fff,
        0x200000,
        0x200fff,
        vec![MemoryArea { base_addr: 0x1000, length: 0x3000 }],
    );
    assert_eq!(allocator.allocate_frame(), Some(Frame { number: 1 }));
    assert_eq!(allocator.allocate_frame(), None);
    assert_eq!(allocator.next_free_frame(), Frame { number: 9 });
    assert_eq!(allocator.current_area(), None);
}

#[test]
fn the_mark_follows_the_allocations() {
    let mut allocator = single_area();
    assert_eq!(allocator.next_free_frame(), Frame { number: 0 });
    assert_eq!(allocator.current_area(), Some(MemoryArea { base_addr: 0x0, length: 0x100000 }));
    for number in 0..0x10 {
        assert_eq!(allocator.allocate_frame(), Some(Frame { number }));
        assert_eq!(allocator.next_free_frame(), Frame { number: number + 1 });
    }
    assert_eq!(allocator.allocate_frame(), Some(Frame { number: 0x21 }));
    assert_eq!(allocator.next_free_frame(), Frame { number: 0x22 });
}
