//! Constants shared by the coloring authority and the mapper.

use vstd::prelude::*;

verus! {

/// Size of one page of physical memory in bytes.
pub const PAGE_SIZE: usize = 4096;

/// How many colors the hypervisor keeps for itself when no list is supplied.
pub const HVISOR_DEFAULT_NUM_COLORS: usize = 4;

} // verus!
