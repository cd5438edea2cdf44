//! The color constrained frame allocator: a buddy allocator that is only
//! ever given frames of active colors, so that it can only return such.

use vstd::prelude::*;
use crate::colors::color_range;
use crate::consts::PAGE_SIZE;
use crate::error::OutOfMemory;
use crate::llc_coloring::LlcColoring;
use crate::memory::buddy::{buddy_add_frame, buddy_alloc, buddy_new, free_frames};

verus! {

/// The greatest number of frames whose addresses fit the address type.
pub const MAX_FRAMES: usize = usize::MAX / PAGE_SIZE;

/// The color of a frame: frames one way size apart share a color.
pub open spec fn frame_color(frame: usize, max_colors: usize) -> usize
    recommends
        max_colors > 0,
{
    (frame % max_colors) as usize
}

/// Tells whether `color` is among `colors`.
pub fn contains_color(colors: &Vec<usize>, color: usize) -> (r: bool)
    ensures
        r == colors@.contains(color),
{
    let mut i: usize = 0;
    while i < colors.len()
        invariant
            i <= colors.len(),
            forall|j: int| 0 <= j < i ==> colors@[j] != color,
        decreases colors.len() - i,
    {
        if colors[i] == color {
            return true;
        }
        i += 1;
    }
    false
}

/// A frame allocator that hands out frames of the active colors only.
pub struct ColorFrameAllocator {
    inner: buddy_system_allocator::FrameAllocator<32>,
    max_colors: usize,
    active_colors: Vec<usize>,
}

impl ColorFrameAllocator {
    /// The number of colors that frames are told apart by.
    pub closed spec fn max_colors(&self) -> usize {
        self.max_colors
    }

    /// The colors that this allocator draws from.
    pub closed spec fn active_colors(&self) -> Seq<usize> {
        self.active_colors@
    }

    /// The frames that can still be handed out.
    pub closed spec fn free(&self) -> Set<usize> {
        free_frames(self.inner)
    }

    /// Whether this allocator may hold `frame`: its address fits and its
    /// color is active.
    pub open spec fn admits(&self, frame: usize) -> bool {
        frame < MAX_FRAMES && self.active_colors().contains(
            frame_color(frame, self.max_colors()),
        )
    }

    /// There is at least one color, and every free frame is admitted.
    /// Every allocator that executable code can hold satisfies this.
    #[verifier::type_invariant]
    pub closed spec fn wf(&self) -> bool {
        &&& self.max_colors > 0
        &&& forall|f: usize| #[trigger] free_frames(self.inner).contains(f) ==> self.admits(f)
    }

    /// An allocator without frames for the colors that `authority` has
    /// published, or `None` where coloring is off.
    pub fn new(authority: &LlcColoring) -> (r: Option<Self>)
        ensures
            r is Some == authority.published() is Some,
            r is Some ==> {
                &&& r->Some_0.wf()
                &&& r->Some_0.max_colors() == authority.published()->Some_0.max_colors
                &&& r->Some_0.active_colors() == authority.published()->Some_0.active_colors
                &&& r->Some_0.free() == Set::<usize>::empty()
            },
    {
        let max_colors: usize = match authority.max_colors() {
            Some(n) => n,
            None => { return None; },
        };
        let active_colors: Vec<usize> = match authority.active_colors() {
            Some(colors) => colors.clone(),
            None => { return None; },
        };
        proof {
            use_type_invariant(authority);
            authority.lemma_max_colors_positive();
        }
        Some(ColorFrameAllocator { inner: buddy_new(), max_colors, active_colors })
    }

    /// Offers the frames `start..end` to the allocator. It keeps those of
    /// an active color and leaves the others alone. None of the frames may
    /// be free in it already.
    pub fn add_frames(&mut self, start: usize, end: usize)
        requires
            start <= end <= MAX_FRAMES,
            forall|f: usize| start <= f < end ==> !(#[trigger] old(self).free().contains(f)),
        ensures
            final(self).wf(),
            final(self).max_colors() == old(self).max_colors(),
            final(self).active_colors() == old(self).active_colors(),
            forall|f: usize|
                #[trigger] final(self).free().contains(f) <==> (old(self).free().contains(f) || (
                start <= f < end && old(self).admits(f))),
    {
        proof {
            use_type_invariant(&*self);
            assert(self.free() == free_frames(self.inner));
        }
        let mut frame: usize = start;
        while frame < end
            invariant
                start <= frame <= end <= MAX_FRAMES,
                self.max_colors == old(self).max_colors,
                self.max_colors > 0,
                self.active_colors == old(self).active_colors,
                forall|f: usize|
                    #[trigger] free_frames(self.inner).contains(f) <==> (free_frames(
                        old(self).inner,
                    ).contains(f) || (start <= f < frame && old(self).admits(f))),
                forall|f: usize|
                    start <= f < end ==> !(#[trigger] free_frames(old(self).inner).contains(f)),
                forall|f: usize|
                    #[trigger] free_frames(old(self).inner).contains(f) ==> old(self).admits(f),
            decreases end - frame,
        {
            if contains_color(&self.active_colors, frame % self.max_colors) {
                buddy_add_frame(&mut self.inner, frame, frame + 1);
            }
            frame += 1;
        }
    }

    /// Takes one free frame. The frame returned was free, is free no more,
    /// and has an active color. With no free frame left the answer is
    /// `OutOfMemory` and nothing changes.
    pub fn alloc_frame(&mut self) -> (r: Result<usize, OutOfMemory>)
        ensures
            final(self).wf(),
            final(self).max_colors() == old(self).max_colors(),
            final(self).active_colors() == old(self).active_colors(),
            match r {
                Ok(frame) => {
                    &&& old(self).free().contains(frame)
                    &&& old(self).admits(frame)
                    &&& final(self).free() == old(self).free().remove(frame)
                },
                Err(_) => {
                    &&& old(self).free() == Set::<usize>::empty()
                    &&& final(self).free() == old(self).free()
                },
            },
    {
        proof {
            use_type_invariant(&*self);
            assert(self.free() == free_frames(self.inner));
        }
        match buddy_alloc(&mut self.inner, 1) {
            Some(frame) => Ok(frame),
            None => Err(OutOfMemory),
        }
    }
}

} // verus!
