//! How a memory region turns a virtual address into a physical one.

use vstd::prelude::*;
use vstd::std_specs::convert::{FromSpec, IntoSpec};
use crate::consts::PAGE_SIZE;
use crate::error::OutOfMemory;
use crate::memory::frame::ColorFrameAllocator;
use crate::memory::{MemFlags, MemoryRegion, PhysAddr};

verus! {

/// The translation strategy of a region, fixed when the region is made.
#[derive(Clone, Copy, Debug, PartialEq, Eq, Structural)]
pub enum Mapper {
    /// The physical address is the virtual address less this offset.
    Offset(usize),
    /// Every page of the region is this one physical page.
    Fixed(usize),
    /// Every page gets a frame of its own, of an active color.
    Color,
}

/// `a - b` in the arithmetic of addresses, which wraps around.
pub open spec fn wrapping_diff(a: usize, b: usize) -> usize {
    if a >= b {
        (a - b) as usize
    } else {
        (a - b + usize::MAX + 1) as usize
    }
}

/// The physical address of a frame.
pub open spec fn frame_address(frame: usize) -> int {
    frame * PAGE_SIZE
}

impl Mapper {
    /// The offset of an `Offset` strategy; the other strategies have none
    /// and answer 0.
    pub fn offset(&self) -> (off: usize)
        ensures
            off == match *self {
                Mapper::Offset(off) => off,
                Mapper::Fixed(_) => 0,
                Mapper::Color => 0,
            },
    {
        match self {
            Mapper::Offset(off) => *off,
            Mapper::Fixed(_paddr) => 0,
            Mapper::Color => 0,
        }
    }

    /// Gives the physical address that `vaddr` is mapped to where no frame
    /// is needed for it: `Offset` and `Fixed` always have an answer, and it
    /// is the one that `map_addr` gives. `Color` has none without an
    /// allocator.
    pub fn map_plain(&self, vaddr: usize) -> (r: Option<PhysAddr>)
        ensures
            r == match *self {
                Mapper::Offset(off) => Some(wrapping_diff(vaddr, off)),
                Mapper::Fixed(paddr) => Some(paddr),
                Mapper::Color => None,
            },
    {
        match self {
            Mapper::Offset(off) => Some(vaddr.wrapping_sub(*off)),
            Mapper::Fixed(paddr) => Some(*paddr),
            Mapper::Color => None,
        }
    }

    /// Whether answering `r` for the virtual address `vaddr`, with the
    /// allocator going from `before` to `after`, is what this strategy asks
    /// for.
    ///
    /// `Offset` and `Fixed` always succeed and leave the allocator alone.
    /// `Color` takes one free frame of an active color and answers with its
    /// address; with no free frame the answer is `OutOfMemory` and the
    /// allocator is as it was.
    pub open spec fn resolves(
        &self,
        vaddr: usize,
        before: ColorFrameAllocator,
        after: ColorFrameAllocator,
        r: Result<PhysAddr, OutOfMemory>,
    ) -> bool {
        &&& after.max_colors() == before.max_colors()
        &&& after.active_colors() == before.active_colors()
        &&& match *self {
            Mapper::Offset(off) => {
                &&& r == Ok::<PhysAddr, OutOfMemory>(wrapping_diff(vaddr, off))
                &&& after.free() == before.free()
            },
            Mapper::Fixed(paddr) => {
                &&& r == Ok::<PhysAddr, OutOfMemory>(paddr)
                &&& after.free() == before.free()
            },
            Mapper::Color => match r {
                Ok(paddr) => exists|frame: usize|
                    {
                        &&& #[trigger] before.free().contains(frame)
                        &&& before.admits(frame)
                        &&& paddr == frame_address(frame)
                        &&& after.free() == before.free().remove(frame)
                    },
                Err(_) => {
                    &&& before.free() == Set::<usize>::empty()
                    &&& after.free() == before.free()
                },
            },
        }
    }

    /// Gives the physical address that the virtual address `vaddr` is
    /// mapped to, as `resolves` says.
    pub fn map_addr(&self, vaddr: usize, allocator: &mut ColorFrameAllocator) -> (r: Result<
        PhysAddr,
        OutOfMemory,
    >)
        ensures
            final(allocator).wf(),
            self.resolves(vaddr, *old(allocator), *final(allocator), r),
    {
        proof {
            use_type_invariant(&*allocator);
        }
        match self.map_plain(vaddr) {
            Some(paddr) => Ok(paddr),
            None => match allocator.alloc_frame() {
                Ok(frame) => Ok(frame * PAGE_SIZE),
                Err(e) => Err(e),
            },
        }
    }

    /// Gives the physical address that `vaddr` is mapped to: `vaddr` is
    /// turned into a number, and `map_addr` does the rest.
    pub fn map_fn<VA: Into<usize>>(&self, vaddr: VA, allocator: &mut ColorFrameAllocator) -> (r:
        Result<PhysAddr, OutOfMemory>)
        ensures
            final(allocator).wf(),
            exists|va: usize|
                {
                    &&& #[trigger] self.resolves(va, *old(allocator), *final(allocator), r)
                    &&& VA::obeys_into_spec() ==> va == vaddr.into_spec()
                },
    {
        let va: usize = vaddr.into();
        let r = self.map_addr(va, allocator);
        assert(self.resolves(va, *old(allocator), *allocator, r));
        r
    }
}

/// The offset between a virtual address and the physical address that it
/// is to be mapped to, in the wrapping arithmetic of addresses.
pub fn phys_virt_offset(start_vaddr: usize, start_paddr: PhysAddr) -> (off: usize)
    ensures
        off == wrapping_diff(start_vaddr, start_paddr),
        wrapping_diff(start_vaddr, off) == start_paddr,
{
    start_vaddr.wrapping_sub(start_paddr)
}

impl<VA: From<usize> + Into<usize> + Copy> MemoryRegion<VA> {
    /// A region whose pages all are the one empty page at `empty_page`.
    pub fn new_with_empty_mapper(start: VA, size: usize, flags: MemFlags, empty_page: PhysAddr) -> (region:
        Self)
        ensures
            region == (MemoryRegion { start, size, flags, mapper: Mapper::Fixed(empty_page) }),
    {
        MemoryRegion::new(start, size, flags, Mapper::Fixed(empty_page))
    }

    /// A region that maps the virtual addresses from `start_vaddr` on to
    /// the physical addresses from `start_paddr` on, one after the other.
    pub fn new_with_offset_mapper(
        start_vaddr: VA,
        start_paddr: PhysAddr,
        size: usize,
        flags: MemFlags,
    ) -> (region: Self)
        ensures
            region.size == size,
            region.flags == flags,
            exists|va: usize|
                {
                    &&& region.mapper == Mapper::Offset(#[trigger] wrapping_diff(va, start_paddr))
                    &&& <VA as IntoSpec<usize>>::obeys_into_spec() ==> va == start_vaddr.into_spec()
                    &&& <VA as FromSpec<usize>>::obeys_from_spec() ==> region.start
                        == <VA as FromSpec<usize>>::from_spec(va)
                },
    {
        let va: usize = start_vaddr.into();
        let off: usize = phys_virt_offset(va, start_paddr);
        let region = MemoryRegion::new(va.into(), size, flags, Mapper::Offset(off));
        assert(region.mapper == Mapper::Offset(wrapping_diff(va, start_paddr)));
        region
    }

    /// A region whose pages each get a frame of an active color.
    pub fn new_with_color_mapper(start_vaddr: VA, size: usize, flags: MemFlags) -> (region: Self)
        ensures
            region.size == size,
            region.flags == flags,
            region.mapper == Mapper::Color,
            <VA as IntoSpec<usize>>::obeys_into_spec() && <VA as FromSpec<usize>>::obeys_from_spec()
                ==> region.start == <VA as FromSpec<usize>>::from_spec(start_vaddr.into_spec()),
    {
        let va: usize = start_vaddr.into();
        MemoryRegion::new(va.into(), size, flags, Mapper::Color)
    }
}

} // verus!
