//! Physical memory: frames and the allocators that hand them out.

pub mod area_frame_allocator;
pub mod paging;

pub use self::area_frame_allocator::AreaFrameAllocator;
use vstd::prelude::*;

verus! {

/// Size of a physical frame and of a virtual page, in bytes.
pub const PAGE_SIZE: u64 = 4096;

/// Number of the highest frame that an address of this machine can lie in.
pub open spec fn max_frame_number() -> nat {
    (u64::MAX / PAGE_SIZE) as nat
}

/// A physical-memory frame, named by its number: the physical address of its
/// first byte divided by the frame size. Frames are ordered by their numbers.
#[derive(Clone, Copy, Debug, PartialEq, Eq, Structural, PartialOrd, Ord, Hash)]
pub struct Frame {
    pub number: u64,
}

impl Frame {
    /// The frame that holds the byte at `address`.
    pub fn containing_address(address: u64) -> (frame: Frame)
        ensures
            frame.number == address / PAGE_SIZE,
            frame.number <= max_frame_number(),
    {
        Frame { number: address / PAGE_SIZE }
    }

    /// Physical address of the frame's first byte.
    pub fn start_address(&self) -> (address: u64)
        requires
            self.number <= max_frame_number(),
        ensures
            address == self.number * PAGE_SIZE,
    {
        self.number * PAGE_SIZE
    }
}

/// A region of usable RAM as the boot loader reports it.
#[derive(Clone, Copy, Debug, PartialEq, Eq, Structural)]
pub struct MemoryArea {
    /// Physical address of the first byte.
    pub base_addr: u64,
    /// Size in bytes.
    pub length: u64,
}

impl MemoryArea {
    /// The area is not empty and ends within the address space.
    pub open spec fn wf(self) -> bool {
        self.length > 0 && self.base_addr + self.length - 1 <= u64::MAX
    }

    /// Number of the frame that holds the area's first byte.
    pub open spec fn first_frame(self) -> nat {
        (self.base_addr as int / PAGE_SIZE as int) as nat
    }

    /// Number of the frame that holds the area's last byte.
    pub open spec fn last_frame(self) -> nat {
        ((self.base_addr + self.length - 1) / PAGE_SIZE as int) as nat
    }

    /// Whether some byte of the area lies in frame `frame`.
    pub open spec fn contains_frame(self, frame: nat) -> bool {
        self.first_frame() <= frame <= self.last_frame()
    }

    /// Whether the area is not empty and ends within the address space.
    pub fn is_wf(&self) -> (valid: bool)
        ensures
            valid == self.wf(),
    {
        self.length > 0 && self.base_addr <= u64::MAX - (self.length - 1)
    }
}

/// A section of the kernel image as the boot loader reports it.
#[derive(Clone, Copy, Debug, PartialEq, Eq, Structural)]
pub struct KernelSection {
    /// Address of the first byte.
    pub addr: u64,
    /// Size in bytes.
    pub size: u64,
}

impl KernelSection {
    /// Address of the byte after the section's last.
    pub open spec fn end(self) -> int {
        self.addr + self.size
    }
}

/// The memory that the kernel image takes: the lowest start and the highest
/// end among its sections. An image without sections takes none.
pub fn kernel_extent(sections: &[KernelSection]) -> (extent: Option<(u64, u64)>)
    requires
        forall|i: int| 0 <= i < sections@.len() ==> (#[trigger] sections@[i]).end() <= u64::MAX,
    ensures
        extent is None <==> sections@.len() == 0,
        extent matches Some((start, end)) ==> {
            &&& forall|i: int|
                0 <= i < sections@.len() ==> start <= (#[trigger] sections@[i]).addr
                    && sections@[i].end() <= end
            &&& exists|i: int| 0 <= i < sections@.len() && (#[trigger] sections@[i]).addr == start
            &&& exists|i: int| 0 <= i < sections@.len() && (#[trigger] sections@[i]).end() == end
        },
{
    if sections.len() == 0 {
        return None;
    }
    let mut start = sections[0].addr;
    let mut end = sections[0].addr + sections[0].size;
    let mut index: usize = 1;
    while index < sections.len()
        invariant
            1 <= index <= sections@.len(),
            forall|i: int| 0 <= i < sections@.len() ==> (#[trigger] sections@[i]).end() <= u64::MAX,
            forall|i: int|
                0 <= i < index ==> start <= (#[trigger] sections@[i]).addr && sections@[i].end()
                    <= end,
            exists|i: int| 0 <= i < index && (#[trigger] sections@[i]).addr == start,
            exists|i: int| 0 <= i < index && (#[trigger] sections@[i]).end() == end,
        decreases sections@.len() - index,
    {
        let section = sections[index];
        if section.addr < start {
            start = section.addr;
        }
        if section.addr + section.size > end {
            end = section.addr + section.size;
        }
        index += 1;
    }
    Some((start, end))
}

/// Why an allocator turned a request down.
#[derive(Clone, Copy, Debug, PartialEq, Eq, Structural)]
pub enum AllocError {
    /// The allocator never takes frames back.
    DeallocationUnsupported,
}

/// A source of free physical frames.
pub trait FrameAllocator: Sized {
    /// The allocator's invariant.
    spec fn wf(&self) -> bool;

    /// Whether one allocation in this state may hand out `frame` and leave
    /// the allocator as `after`.
    spec fn allocates(&self, frame: Option<Frame>, after: &Self) -> bool;

    /// Hand out a frame that is in use by nobody, if one is left.
    fn allocate_frame(&mut self) -> (frame: Option<Frame>)
        requires
            old(self).wf(),
        ensures
            final(self).wf(),
            old(self).allocates(frame, final(self)),
    ;

    /// Give `frame` back to the allocator.
    fn deallocate_frame(&mut self, frame: Frame) -> (result: Result<(), AllocError>)
        requires
            old(self).wf(),
        ensures
            final(self).wf(),
            result is Err ==> *final(self) == *old(self),
    ;
}

} // verus!
