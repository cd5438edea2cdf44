//! The buddy frame allocator of `buddy_system_allocator`, as the color
//! constrained allocator sees it: a set of free frame numbers.
//!
//! Nothing in this file is proved: each contract restates what the
//! allocator's source shows of the call that the function makes.

use vstd::prelude::*;

verus! {

#[verifier::external_type_specification]
#[verifier::external_body]
pub struct ExFrameAllocator<const ORDER: usize>(buddy_system_allocator::FrameAllocator<ORDER>);

/// The frame numbers that the allocator holds as free: those covered by a
/// block on one of its free lists.
pub uninterp spec fn free_frames(allocator: buddy_system_allocator::FrameAllocator<32>) -> Set<usize>;

/// `FrameAllocator::new`: an allocator with no free frame.
#[verifier::external_body]
pub(crate) fn buddy_new() -> (allocator: buddy_system_allocator::FrameAllocator<32>)
    ensures
        free_frames(allocator) == Set::<usize>::empty(),
{
    buddy_system_allocator::FrameAllocator::new()
}

/// `FrameAllocator::add_frame`: the frames `start..end` become free. The
/// allocator cuts the range into aligned blocks and puts each on a free
/// list; it asserts `start <= end`, and it does not look for frames that
/// are free already, so the range must hold none of them.
#[verifier::external_body]
pub(crate) fn buddy_add_frame(
    allocator: &mut buddy_system_allocator::FrameAllocator<32>,
    start: usize,
    end: usize,
)
    requires
        start <= end,
        forall|f: usize|
            start <= f < end ==> !(#[trigger] free_frames(*old(allocator)).contains(f)),
    ensures
        forall|f: usize|
            #[trigger] free_frames(*final(allocator)).contains(f) <==> (free_frames(
                *old(allocator),
            ).contains(f) || start <= f < end),
    no_unwind
{
    allocator.add_frame(start, end)
}

/// `FrameAllocator::alloc` for a single frame: while any frame is free, a
/// block is split down to single frames and one free frame is taken off
/// and returned; which one is left open here. With no free frame the
/// answer is `None` and nothing changes.
#[verifier::external_body]
pub(crate) fn buddy_alloc(
    allocator: &mut buddy_system_allocator::FrameAllocator<32>,
    count: usize,
) -> (r: Option<usize>)
    requires
        count == 1,
    ensures
        match r {
            Some(frame) => {
                &&& free_frames(*old(allocator)).contains(frame)
                &&& free_frames(*final(allocator)) == free_frames(*old(allocator)).remove(frame)
            },
            None => {
                &&& free_frames(*old(allocator)) == Set::<usize>::empty()
                &&& free_frames(*final(allocator)) == free_frames(*old(allocator))
            },
        },
    no_unwind
{
    allocator.alloc(count)
}

} // verus!
