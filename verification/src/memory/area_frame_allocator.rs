//! A frame allocator that walks the memory areas reported at boot.

use super::{AllocError, Frame, FrameAllocator, MemoryArea, PAGE_SIZE, max_frame_number};
use vstd::prelude::*;

verus! {

/// What an [`AreaFrameAllocator`] stands for: a low-water mark, the area
/// that frames are taken from at present, and the description of the memory
/// it draws from. Frame ranges are inclusive.
pub struct AllocatorView {
    /// No frame below this number will be handed out any more.
    pub next_free: nat,
    /// The area that is selected at present, if one is.
    pub selected: Option<MemoryArea>,
    /// The usable areas, in the order they were given.
    pub areas: Seq<MemoryArea>,
    /// First frame of the kernel image.
    pub kernel_start: nat,
    /// Last frame of the kernel image.
    pub kernel_end: nat,
    /// First frame of the boot information.
    pub multiboot_start: nat,
    /// Last frame of the boot information.
    pub multiboot_end: nat,
}

impl AllocatorView {
    /// Whether `frame` holds part of the kernel image or of the boot
    /// information.
    pub open spec fn reserved(self, frame: nat) -> bool {
        ||| self.kernel_start <= frame <= self.kernel_end
        ||| self.multiboot_start <= frame <= self.multiboot_end
    }

    /// Whether `frame` lies in one of the usable areas.
    pub open spec fn in_some_area(self, frame: nat) -> bool {
        exists|i: int| 0 <= i < self.areas.len() && #[trigger] self.areas[i].contains_frame(frame)
    }

    /// Whether `frame` is RAM that neither the kernel nor the boot
    /// information occupies.
    pub open spec fn usable(self, frame: nat) -> bool {
        self.in_some_area(frame) && !self.reserved(frame)
    }

    /// Whether `frame` is the lowest usable frame at or above the low-water
    /// mark.
    pub open spec fn is_first_free(self, frame: nat) -> bool {
        &&& self.next_free <= frame
        &&& self.usable(frame)
        &&& forall|below: nat| self.next_free <= below < frame ==> !#[trigger] self.usable(below)
    }

    /// Whether no usable frame is left at or above the low-water mark.
    pub open spec fn exhausted(self) -> bool {
        forall|frame: nat| self.next_free <= frame ==> !#[trigger] self.usable(frame)
    }

    /// Whether no area's last frame lies at or above `mark`.
    pub open spec fn none_reaches(self, mark: nat) -> bool {
        forall|j: int| 0 <= j < self.areas.len() ==> (#[trigger] self.areas[j]).last_frame() < mark
    }

    /// Whether no area that reaches up to `mark` starts below area `index`,
    /// and none that comes before it in the list starts where it starts.
    pub open spec fn unrivalled(self, mark: nat, index: int) -> bool {
        &&& 0 <= index < self.areas.len()
        &&& forall|j: int|
            0 <= j < self.areas.len() && mark <= (#[trigger] self.areas[j]).last_frame() ==> {
                &&& self.areas[index].base_addr <= self.areas[j].base_addr
                &&& j < index ==> self.areas[index].base_addr < self.areas[j].base_addr
            }
    }

    /// Whether area `index` is the one to select at `mark`: among the areas
    /// whose last frame lies at or above `mark` it has the lowest base
    /// address, and of those with that base address it comes first.
    pub open spec fn selects(self, mark: nat, index: int) -> bool {
        &&& self.unrivalled(mark, index)
        &&& mark <= self.areas[index].last_frame()
    }

    /// Whether `selected` is what a selection at `mark` gives: the area to
    /// select, or none where no area reaches up to `mark`.
    pub open spec fn is_selection(self, mark: nat, selected: Option<MemoryArea>) -> bool {
        match selected {
            Some(area) => exists|i: int| #[trigger] self.selects(mark, i) && self.areas[i] == area,
            None => self.none_reaches(mark),
        }
    }

    /// Where the low-water mark stands after a selection at `mark` has given
    /// `selected`: at the first frame of the selected area where that lies
    /// above `mark`, else at `mark`.
    pub open spec fn mark_after_selection(mark: nat, selected: Option<MemoryArea>) -> nat {
        match selected {
            Some(area) => if mark < area.first_frame() {
                area.first_frame()
            } else {
                mark
            },
            None => mark,
        }
    }

    /// Whether `other` describes the same memory, whatever its low-water
    /// mark and its selected area.
    pub open spec fn same_memory(self, other: AllocatorView) -> bool {
        &&& self.areas == other.areas
        &&& self.kernel_start == other.kernel_start
        &&& self.kernel_end == other.kernel_end
        &&& self.multiboot_start == other.multiboot_start
        &&& self.multiboot_end == other.multiboot_end
    }
}

/// A frame allocator that uses the memory areas from the boot information as
/// its source. The frames of the kernel image and of the boot information
/// itself are never handed out.
///
/// `kernel_end` and `multiboot_end` are _inclusive_ bounds.
pub struct AreaFrameAllocator {
    next_free_frame: Frame,
    current_area: Option<MemoryArea>,
    areas: Vec<MemoryArea>,
    kernel_start: Frame,
    kernel_end: Frame,
    multiboot_start: Frame,
    multiboot_end: Frame,
}

impl View for AreaFrameAllocator {
    type V = AllocatorView;

    closed spec fn view(&self) -> AllocatorView {
        AllocatorView {
            next_free: self.next_free_frame.number as nat,
            selected: self.current_area,
            areas: self.areas@,
            kernel_start: self.kernel_start.number as nat,
            kernel_end: self.kernel_end.number as nat,
            multiboot_start: self.multiboot_start.number as nat,
            multiboot_end: self.multiboot_end.number as nat,
        }
    }
}

impl AreaFrameAllocator {
    /// What holds of the fields whatever area is selected.
    spec fn fields_wf(&self) -> bool {
        &&& forall|i: int| 0 <= i < self.areas@.len() ==> (#[trigger] self.areas@[i]).wf()
        &&& self.next_free_frame.number <= max_frame_number() + 1
        &&& self.kernel_end.number <= max_frame_number()
        &&& self.multiboot_end.number <= max_frame_number()
    }

    /// What ties the selected area to the low-water mark: a selected area is
    /// one of the areas, starts at or below the mark, and has no rival among
    /// the areas that reach up to the mark; with no area selected no area
    /// reaches up to the mark.
    spec fn selection_wf(&self) -> bool {
        match self.current_area {
            Some(area) => {
                &&& exists|i: int|
                    #[trigger] self@.unrivalled(self@.next_free, i) && self.areas@[i] == area
                &&& area.first_frame() <= self.next_free_frame.number
            },
            None => self@.none_reaches(self@.next_free),
        }
    }

    /// A new allocator over `memory_areas`. The four addresses delimit the
    /// kernel image and the boot information; the frames that hold them,
    /// from the frame of each start address to the frame of each end address,
    /// are reserved. The area with the lowest base address is selected, and
    /// the low-water mark stands at its first frame.
    pub fn new(
        kernel_start: u64,
        kernel_end: u64,
        multiboot_start: u64,
        multiboot_end: u64,
        memory_areas: Vec<MemoryArea>,
    ) -> (allocator: Self)
        requires
            forall|i: int| 0 <= i < memory_areas@.len() ==> (#[trigger] memory_areas@[i]).wf(),
        ensures
            allocator.wf(),
            allocator@.areas == memory_areas@,
            allocator@.kernel_start == kernel_start / PAGE_SIZE,
            allocator@.kernel_end == kernel_end / PAGE_SIZE,
            allocator@.multiboot_start == multiboot_start / PAGE_SIZE,
            allocator@.multiboot_end == multiboot_end / PAGE_SIZE,
            allocator@.is_selection(0, allocator@.selected),
            allocator@.next_free == AllocatorView::mark_after_selection(0, allocator@.selected),
            forall|frame: nat| frame < allocator@.next_free ==> !allocator@.in_some_area(frame),
    {
        let mut allocator = AreaFrameAllocator {
            next_free_frame: Frame::containing_address(0),
            current_area: None,
            areas: memory_areas,
            kernel_start: Frame::containing_address(kernel_start),
            kernel_end: Frame::containing_address(kernel_end),
            multiboot_start: Frame::containing_address(multiboot_start),
            multiboot_end: Frame::containing_address(multiboot_end),
        };
        allocator.choose_next_area();
        allocator
    }

    /// The frame at which the next allocation starts to look.
    pub fn next_free_frame(&self) -> (frame: Frame)
        ensures
            frame.number == self@.next_free,
    {
        self.next_free_frame
    }

    /// The area that is selected at present, if one is.
    pub fn current_area(&self) -> (area: Option<MemoryArea>)
        ensures
            area == self@.selected,
    {
        self.current_area
    }

    /// Select the area with the lowest base address among those that reach
    /// up to the low-water mark, the first such in the order the areas were
    /// given, and lift the mark to the start of that area. Where no area
    /// reaches up to the mark none is selected and the mark stays.
    fn choose_next_area(&mut self)
        requires
            old(self).fields_wf(),
        ensures
            final(self).fields_wf(),
            final(self).selection_wf(),
            final(self)@.same_memory(old(self)@),
            final(self)@.is_selection(old(self)@.next_free, final(self)@.selected),
            final(self)@.next_free == AllocatorView::mark_after_selection(
                old(self)@.next_free,
                final(self)@.selected,
            ),
            final(self)@.selected matches Some(area) ==> forall|j: int|
                0 <= j < final(self)@.areas.len() && old(self)@.next_free <= (
                #[trigger] final(self)@.areas[j]).last_frame() ==> area.base_addr
                    <= final(self)@.areas[j].base_addr,
            final(self)@.selected is None ==> final(self)@.next_free == old(self)@.next_free,
            final(self)@.selected matches Some(area) ==> final(self)@.next_free
                <= area.last_frame(),
            old(self)@.next_free <= final(self)@.next_free,
            forall|frame: nat|
                old(self)@.next_free <= frame < final(self)@.next_free
                    ==> !final(self)@.in_some_area(frame),
    {
        let ghost mark = self@.next_free;
        let ghost areas = self@;
        let mut best: Option<MemoryArea> = None;
        let ghost mut best_index: int = 0;
        let mut i: usize = 0;
        while i < self.areas.len()
            invariant
                i <= self.areas@.len(),
                *self == *old(self),
                areas == self@,
                mark == self@.next_free,
                self.fields_wf(),
                match best {
                    Some(chosen) => {
                        &&& 0 <= best_index < i
                        &&& self.areas@[best_index] == chosen
                        &&& mark <= chosen.last_frame()
                        &&& forall|j: int|
                            0 <= j < i && mark <= (#[trigger] areas.areas[j]).last_frame() ==> {
                                &&& chosen.base_addr <= areas.areas[j].base_addr
                                &&& j < best_index ==> chosen.base_addr < areas.areas[j].base_addr
                            }
                    },
                    None => forall|j: int|
                        0 <= j < i ==> (#[trigger] areas.areas[j]).last_frame() < mark,
                },
            decreases self.areas@.len() - i,
        {
            let area = self.areas[i];
            assert(area.wf());
            let last = (area.base_addr + (area.length - 1)) / PAGE_SIZE;
            if last >= self.next_free_frame.number {
                match best {
                    None => {
                        best = Some(area);
                        proof {
                            best_index = i as int;
                        }
                    },
                    Some(chosen) => {
                        if area.base_addr < chosen.base_addr {
                            best = Some(area);
                            proof {
                                best_index = i as int;
                            }
                        }
                    },
                }
            }
            i += 1;
        }
        self.current_area = best;
        if let Some(area) = best {
            let start_frame = Frame::containing_address(area.base_addr);
            if self.next_free_frame.number < start_frame.number {
                self.next_free_frame = start_frame;
            }
        }
        proof {
            let after = self@.next_free;
            assert(self@.areas == areas.areas);
            if let Some(area) = best {
                assert(areas.selects(mark, best_index));
                assert(self@.selects(mark, best_index));
                assert(self@.unrivalled(after, best_index));
            }
            assert forall|frame: nat| mark <= frame < after
                implies !self@.in_some_area(frame) by {
                if self@.in_some_area(frame) {
                    let k = choose|k: int|
                        0 <= k < self@.areas.len()
                            && #[trigger] self@.areas[k].contains_frame(frame);
                    assert(self@.areas[k].last_frame() >= mark);
                }
            }
        }
    }
}

impl FrameAllocator for AreaFrameAllocator {
    closed spec fn wf(&self) -> bool {
        self.fields_wf() && self.selection_wf()
    }

    /// An allocation hands out the lowest usable frame at or above the
    /// low-water mark and moves the mark just past it; the area that stays
    /// selected is the one that a selection at that frame gives. With no
    /// such frame it hands out nothing, and never will again: no area is
    /// selected any more and none reaches up to the mark, which stands where
    /// it stood or just past the kernel image or the boot information, and
    /// where it stood if no area reached up to it.
    open spec fn allocates(&self, frame: Option<Frame>, after: &Self) -> bool {
        &&& after@.same_memory(self@)
        &&& match frame {
            Some(frame) => {
                &&& self@.is_first_free(frame.number as nat)
                &&& after@.next_free == frame.number + 1
                &&& self@.is_selection(frame.number as nat, after@.selected)
            },
            None => {
                &&& self@.exhausted()
                &&& self@.next_free <= after@.next_free
                &&& after@.selected is None
                &&& after@.none_reaches(after@.next_free)
                &&& self@.none_reaches(self@.next_free) ==> after@.next_free == self@.next_free
                &&& {
                    ||| after@.next_free == self@.next_free
                    ||| after@.next_free == self@.kernel_end + 1
                    ||| after@.next_free == self@.multiboot_end + 1
                }
            },
        }
    }

    /// Hand out the lowest usable frame that was not handed out before, if
    /// one is left.
    fn allocate_frame(&mut self) -> (frame: Option<Frame>)
        ensures
            frame matches Some(found) ==> old(self)@.in_some_area(found.number as nat)
                && !old(self)@.reserved(found.number as nat),
            frame is None ==> final(self)@.exhausted(),
    {
        loop
            invariant
                self.wf(),
                self@.same_memory(old(self)@),
                old(self)@.next_free <= self@.next_free,
                forall|skipped: nat|
                    old(self)@.next_free <= skipped < self@.next_free
                        ==> !#[trigger] old(self)@.usable(skipped),
                old(self)@.none_reaches(old(self)@.next_free) ==> self@.next_free == old(self)@.next_free,
                ({
                    ||| self@.next_free == old(self)@.next_free
                    ||| self@.next_free == self@.kernel_end + 1
                    ||| self@.next_free == self@.multiboot_end + 1
                    ||| self@.selected matches Some(area) && self@.next_free <= area.last_frame()
                }),
            decreases
                max_frame_number() + 1 - self.next_free_frame.number,
                match self.current_area {
                    None => 0int,
                    Some(area) => if self.next_free_frame.number <= area.last_frame() {
                        1int
                    } else {
                        2int
                    },
                },
        {
            let area = match self.current_area {
                Some(area) => area,
                None => {
                    // No area reaches up to the mark: nothing is left.
                    return None;
                },
            };
            let frame = Frame { number: self.next_free_frame.number };
            let ghost start = old(self)@;
            let ghost mark = self@.next_free;
            let ghost index = choose|i: int|
                #[trigger] self@.unrivalled(mark, i) && self.areas@[i] == area;
            assert(area.wf());
            let current_area_last_frame = Frame::containing_address(
                area.base_addr + (area.length - 1),
            );
            if frame.number > current_area_last_frame.number {
                // All frames of the current area are used, get the next area.
                self.choose_next_area();
                proof {
                    assert forall|skipped: nat|
                        start.next_free <= skipped < self@.next_free
                        implies !#[trigger] start.usable(skipped) by {
                        if mark <= skipped {
                            assert(!self@.in_some_area(skipped));
                            assert(self@.areas == start.areas);
                        }
                    }
                    if start.none_reaches(start.next_free) {
                        assert(mark == start.next_free);
                        if let Some(chosen) = self@.selected {
                            let k = choose|k: int|
                                #[trigger] self@.selects(mark, k) && self@.areas[k] == chosen;
                            assert(start.areas[k].last_frame() < mark);
                        }
                    }
                }
            } else if frame.number >= self.kernel_start.number && frame.number
                <= self.kernel_end.number {
                // `frame` is used by the kernel: move past the kernel image.
                self.next_free_frame = Frame { number: self.kernel_end.number + 1 };
                proof {
                    assert(start.areas[index].last_frame() >= start.next_free);
                    assert(self@.unrivalled(self@.next_free, index));
                    assert forall|skipped: nat|
                        start.next_free <= skipped < self@.next_free
                        implies !#[trigger] start.usable(skipped) by {
                        if mark <= skipped {
                            assert(start.reserved(skipped));
                        }
                    }
                }
            } else if frame.number >= self.multiboot_start.number && frame.number
                <= self.multiboot_end.number {
                // `frame` is used by the boot information: move past it.
                self.next_free_frame = Frame { number: self.multiboot_end.number + 1 };
                proof {
                    assert(start.areas[index].last_frame() >= start.next_free);
                    assert(self@.unrivalled(self@.next_free, index));
                    assert forall|skipped: nat|
                        start.next_free <= skipped < self@.next_free
                        implies !#[trigger] start.usable(skipped) by {
                        if mark <= skipped {
                            assert(start.reserved(skipped));
                        }
                    }
                }
            } else {
                // `frame` is unused: step over it and hand it out.
                self.next_free_frame = Frame { number: frame.number + 1 };
                proof {
                    assert(self.areas@[index].contains_frame(frame.number as nat));
                    assert(start.areas[index].contains_frame(frame.number as nat));
                    assert(start.in_some_area(frame.number as nat));
                    assert(!start.reserved(frame.number as nat));
                    assert(start.selects(frame.number as nat, index));
                    assert(start.is_selection(frame.number as nat, self@.selected));
                    assert(self@.unrivalled(self@.next_free, index));
                    assert(self.selection_wf());
                    assert(self.fields_wf());
                }
                return Some(frame);
            }
        }
    }

    /// This allocator does not take frames back: the request is refused and
    /// nothing changes.
    fn deallocate_frame(&mut self, frame: Frame) -> (result: Result<(), AllocError>)
        ensures
            result == Err::<(), AllocError>(AllocError::DeallocationUnsupported),
            *final(self) == *old(self),
    {
        Err(AllocError::DeallocationUnsupported)
    }
}

/// A frame that the allocator hands out lies in a usable area and is none of
/// the frames of the kernel image or of the boot information, wherever those
/// ranges lie relative to the areas.
pub proof fn lemma_allocated_frame_is_not_reserved(
    before: AreaFrameAllocator,
    frame: Frame,
    after: AreaFrameAllocator,
)
    requires
        before.allocates(Some(frame), &after),
    ensures
        before@.in_some_area(frame.number as nat),
        !(before@.kernel_start <= frame.number <= before@.kernel_end),
        !(before@.multiboot_start <= frame.number <= before@.multiboot_end),
{
}

/// Two allocations in a row hand out increasing frames, and no usable frame
/// lies between them. Where all memory is one area, every frame that was
/// stepped over belongs to the kernel image or to the boot information.
pub proof fn lemma_allocations_increase(
    before: AreaFrameAllocator,
    first: Frame,
    between: AreaFrameAllocator,
    second: Frame,
    after: AreaFrameAllocator,
)
    requires
        before.allocates(Some(first), &between),
        between.allocates(Some(second), &after),
    ensures
        first.number < second.number,
        forall|gap: nat| first.number < gap < second.number ==> !#[trigger] before@.usable(gap),
        before@.areas.len() == 1 ==> forall|gap: nat|
            first.number < gap < second.number ==> #[trigger] before@.reserved(gap),
{
    assert forall|gap: nat| first.number < gap < second.number
        implies !#[trigger] before@.usable(gap) by {
        assert(!between@.usable(gap));
    }
    if before@.areas.len() == 1 {
        assert forall|gap: nat| first.number < gap < second.number
            implies #[trigger] before@.reserved(gap) by {
            let area = before@.areas[0];
            assert(!before@.usable(gap));
            assert(before@.in_some_area(first.number as nat));
            assert(between@.in_some_area(second.number as nat));
            assert(area.contains_frame(first.number as nat));
            assert(area.contains_frame(second.number as nat));
            assert(before@.areas[0].contains_frame(gap));
            assert(before@.in_some_area(gap));
        }
    }
}

/// Once an allocation has found nothing, every later one finds nothing, and
/// the low-water mark stays where the first of them has left it.
pub proof fn lemma_exhaustion_is_permanent(
    before: AreaFrameAllocator,
    between: AreaFrameAllocator,
    frame: Option<Frame>,
    after: AreaFrameAllocator,
)
    requires
        before.allocates(None, &between),
        between.allocates(frame, &after),
    ensures
        frame is None,
        after@.next_free == between@.next_free,
        after@.selected is None,
{
    if let Some(found) = frame {
        assert(between@.usable(found.number as nat));
        assert(before@.usable(found.number as nat));
    }
}

/// An allocation on an allocator none of whose areas reaches up to the
/// low-water mark finds nothing and leaves the mark where it is.
pub proof fn lemma_consumed_areas_leave_the_mark(
    before: AreaFrameAllocator,
    frame: Option<Frame>,
    after: AreaFrameAllocator,
)
    requires
        before@.none_reaches(before@.next_free),
        before.allocates(frame, &after),
    ensures
        frame is None,
        after@.next_free == before@.next_free,
{
    if let Some(found) = frame {
        let number = found.number as nat;
        assert(before@.in_some_area(number));
        let i = choose|i: int|
            0 <= i < before@.areas.len() && #[trigger] before@.areas[i].contains_frame(number);
        assert(before@.areas[i].last_frame() < before@.next_free);
    }
}

/// A selection has one outcome: the mark and the areas fix which area is
/// selected.
pub proof fn lemma_selection_is_unique(
    view: AllocatorView,
    mark: nat,
    first: Option<MemoryArea>,
    second: Option<MemoryArea>,
)
    requires
        view.is_selection(mark, first),
        view.is_selection(mark, second),
    ensures
        first == second,
{
    match (first, second) {
        (Some(a), Some(b)) => {
            let i = choose|i: int| #[trigger] view.selects(mark, i) && view.areas[i] == a;
            let j = choose|j: int| #[trigger] view.selects(mark, j) && view.areas[j] == b;
            assert(view.areas[i].last_frame() >= mark);
            assert(view.areas[j].last_frame() >= mark);
            if i < j {
                assert(view.areas[j].base_addr < view.areas[i].base_addr);
            } else if j < i {
                assert(view.areas[i].base_addr < view.areas[j].base_addr);
            }
        },
        (Some(a), None) => {
            let i = choose|i: int| #[trigger] view.selects(mark, i) && view.areas[i] == a;
            assert(view.areas[i].last_frame() < mark);
        },
        (None, Some(b)) => {
            let j = choose|j: int| #[trigger] view.selects(mark, j) && view.areas[j] == b;
            assert(view.areas[j].last_frame() < mark);
        },
        (None, None) => {},
    }
}

/// An allocation finds a frame exactly when a usable frame is left at or
/// above the low-water mark.
pub proof fn lemma_allocation_succeeds_iff_frame_left(
    before: AreaFrameAllocator,
    frame: Option<Frame>,
    after: AreaFrameAllocator,
)
    requires
        before.allocates(frame, &after),
    ensures
        frame is Some <==> !before@.exhausted(),
{
    if let Some(found) = frame {
        assert(before@.usable(found.number as nat));
    }
}

} // verus!
