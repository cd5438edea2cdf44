//! What can go wrong: fatal configuration faults found while the color
//! universe is set up, and the one fault that can occur afterwards.

use vstd::prelude::*;

verus! {

/// A configuration that must stop the boot: no color state is published
/// when one of these is found.
#[derive(Clone, Copy, Debug, PartialEq, Eq, Structural)]
pub enum InitError {
    /// A total cache size was supplied together with a way count of zero.
    ZeroWayCount,
    /// The way size is not a whole number of pages.
    WaySizeNotPageMultiple { way_size: usize },
    /// The way holds a number of pages that is not a power of two.
    ColorCountNotPowerOfTwo { way_size: usize },
    /// More active colors were requested than the cache has.
    TooManyColors { requested: usize, available: usize },
    /// A requested active color does not exist.
    ColorOutOfRange { color: usize, max_colors: usize },
}

/// No frame of an active color is left.
#[derive(Clone, Copy, Debug, PartialEq, Eq, Structural)]
pub struct OutOfMemory;

} // verus!
