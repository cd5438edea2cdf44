//! Memory regions and the frames behind them.

use vstd::prelude::*;
use crate::memory::mapper::Mapper;

pub mod buddy;
pub mod frame;
pub mod mapper;

verus! {

/// A physical address.
pub type PhysAddr = usize;

/// Access rights and attributes of a region, one bit each.
#[derive(Clone, Copy, Debug, PartialEq, Eq, Structural)]
pub struct MemFlags {
    pub bits: u64,
}

/// A range of virtual addresses with its rights and its translation
/// strategy.
#[derive(Debug)]
pub struct MemoryRegion<VA> {
    pub start: VA,
    pub size: usize,
    pub flags: MemFlags,
    pub mapper: Mapper,
}

impl<VA> MemoryRegion<VA> {
    /// A region of `size` bytes from `start`.
    pub fn new(start: VA, size: usize, flags: MemFlags, mapper: Mapper) -> (region: Self)
        ensures
            region == (MemoryRegion { start, size, flags, mapper }),
    {
        MemoryRegion { start, size, flags, mapper }
    }
}

} // verus!
