//! The color universe: how many colors a cache way holds and which
//! numbers name them.

use vstd::prelude::*;
use vstd::arithmetic::power2::is_pow2;
use crate::consts::{HVISOR_DEFAULT_NUM_COLORS, PAGE_SIZE};
use crate::error::InitError;

verus! {

/// The colors `0, 1, ..., n - 1` in numeric order.
pub open spec fn color_range(n: nat) -> Seq<usize> {
    Seq::new(n, |i: int| i as usize)
}

/// Whether `way_size` is a whole number of pages.
pub open spec fn is_page_multiple(way_size: usize) -> bool {
    way_size as int % PAGE_SIZE as int == 0
}

/// The number of pages, and so of colors, that a way of `way_size` bytes holds.
pub open spec fn color_count(way_size: usize) -> nat {
    (way_size as int / PAGE_SIZE as int) as nat
}

proof fn lemma_clear_lowest_bit_step(n: u64)
    by (bit_vector)
    requires
        n > 1,
    ensures
        (n & ((n - 1) as u64) == 0) == (n % 2 == 0 && (n / 2) & ((n / 2 - 1) as u64) == 0),
{
}

/// Clearing the lowest set bit of a positive number leaves nothing exactly
/// when the number is a power of two.
proof fn lemma_single_bit_is_pow2(n: u64)
    requires
        n > 0,
    ensures
        (n & ((n - 1) as u64) == 0) == is_pow2(n as int),
    decreases n,
{
    reveal(is_pow2);
    if n == 1 {
        assert(1u64 & 0u64 == 0) by (bit_vector);
    } else {
        lemma_clear_lowest_bit_step(n);
        if n % 2 == 0 {
            lemma_single_bit_is_pow2(n / 2);
        }
    }
}

/// Tests whether a way of `way_size` bytes is a whole number of pages.
pub fn way_size_is_page_multiple(way_size: usize) -> (r: bool)
    ensures
        r == is_page_multiple(way_size),
{
    way_size % PAGE_SIZE == 0
}

/// Tests whether `n` is a power of two; zero is none.
pub fn is_power_of_two(n: usize) -> (r: bool)
    ensures
        r == is_pow2(n as int),
{
    if n == 0 {
        proof {
            reveal(is_pow2);
        }
        false
    } else {
        proof {
            lemma_single_bit_is_pow2(n as u64);
        }
        let m: u64 = n as u64;
        m & (m - 1) == 0
    }
}

/// The number of colors of a way of `way_size` bytes, or the fault that
/// forbids coloring with it.
pub open spec fn max_colors_of(way_size: usize) -> Result<usize, InitError> {
    if !is_page_multiple(way_size) {
        Err(InitError::WaySizeNotPageMultiple { way_size })
    } else if !is_pow2(color_count(way_size) as int) {
        Err(InitError::ColorCountNotPowerOfTwo { way_size })
    } else {
        Ok(color_count(way_size) as usize)
    }
}

/// Derives the number of colors from the way size. A way that is not a
/// whole number of pages is refused, and so is one whose page count is not
/// a power of two.
pub fn derive_max_colors(way_size: usize) -> (r: Result<usize, InitError>)
    ensures
        r == max_colors_of(way_size),
        r is Ok ==> r->Ok_0 * PAGE_SIZE == way_size,
{
    if !way_size_is_page_multiple(way_size) {
        return Err(InitError::WaySizeNotPageMultiple { way_size });
    }
    let max_nr_colors: usize = way_size / PAGE_SIZE;
    if !is_power_of_two(max_nr_colors) {
        return Err(InitError::ColorCountNotPowerOfTwo { way_size });
    }
    Ok(max_nr_colors)
}

/// Lists every color of a cache with `max_nr_colors` colors, in numeric order.
pub fn build_all_colors(max_nr_colors: usize) -> (v: Vec<usize>)
    ensures
        v@ == color_range(max_nr_colors as nat),
{
    let mut v: Vec<usize> = Vec::new();
    let mut i: usize = 0;
    while i < max_nr_colors
        invariant
            i <= max_nr_colors,
            v@ == color_range(i as nat),
        decreases max_nr_colors - i,
    {
        v.push(i);
        i += 1;
        assert(v@ =~= color_range(i as nat));
    }
    v
}

/// How many colors the hypervisor takes when none were asked for.
pub open spec fn default_color_count(max_nr_colors: usize) -> nat {
    if HVISOR_DEFAULT_NUM_COLORS <= max_nr_colors {
        HVISOR_DEFAULT_NUM_COLORS as nat
    } else {
        max_nr_colors as nat
    }
}

/// The default active colors: the first few of all colors.
pub fn default_active_colors(all_colors: &Vec<usize>) -> (v: Vec<usize>)
    ensures
        v@ == all_colors@.take(default_color_count(all_colors.len()) as int),
{
    let nums_colors: usize = if HVISOR_DEFAULT_NUM_COLORS <= all_colors.len() {
        HVISOR_DEFAULT_NUM_COLORS
    } else {
        all_colors.len()
    };
    let mut v: Vec<usize> = Vec::new();
    let mut i: usize = 0;
    while i < nums_colors
        invariant
            i <= nums_colors <= all_colors.len(),
            v@ == all_colors@.take(i as int),
        decreases nums_colors - i,
    {
        v.push(all_colors[i]);
        i += 1;
        assert(v@ =~= all_colors@.take(i as int));
    }
    v
}

/// Whether every color of `colors` exists among `max_nr_colors` colors.
pub open spec fn all_in_range(colors: Seq<usize>, max_nr_colors: usize) -> bool {
    forall|i: int| 0 <= i < colors.len() ==> colors[i] < max_nr_colors
}

/// Whether `colors[i]` is the first color that does not exist.
pub open spec fn is_first_out_of_range(colors: Seq<usize>, max_nr_colors: usize, i: int) -> bool {
    &&& 0 <= i < colors.len()
    &&& colors[i] >= max_nr_colors
    &&& forall|j: int| 0 <= j < i ==> colors[j] < max_nr_colors
}

/// Whether a requested list of active colors can be used as it is.
pub open spec fn active_colors_valid(colors: Seq<usize>, max_nr_colors: usize) -> bool {
    colors.len() <= max_nr_colors && all_in_range(colors, max_nr_colors)
}

/// Checks a requested list of active colors against the number of colors.
/// A list that is too long is reported before a color that does not exist,
/// and of those the first one is reported.
pub fn check_active_colors(colors: &Vec<usize>, max_nr_colors: usize) -> (r: Result<(), InitError>)
    ensures
        r is Ok <==> active_colors_valid(colors@, max_nr_colors),
        colors.len() > max_nr_colors ==> r == Err::<(), InitError>(
            InitError::TooManyColors { requested: colors.len(), available: max_nr_colors },
        ),
        colors.len() <= max_nr_colors && !all_in_range(colors@, max_nr_colors) ==> exists|i: int|
            is_first_out_of_range(colors@, max_nr_colors, i) && r == Err::<(), InitError>(
                InitError::ColorOutOfRange { color: colors@[i], max_colors: max_nr_colors },
            ),
{
    let nums_colors: usize = colors.len();
    if nums_colors > max_nr_colors {
        return Err(InitError::TooManyColors { requested: nums_colors, available: max_nr_colors });
    }
    let mut i: usize = 0;
    while i < nums_colors
        invariant
            i <= nums_colors == colors.len(),
            nums_colors <= max_nr_colors,
            forall|j: int| 0 <= j < i ==> colors@[j] < max_nr_colors,
        decreases nums_colors - i,
    {
        let c: usize = colors[i];
        if c >= max_nr_colors {
            assert(is_first_out_of_range(colors@, max_nr_colors, i as int));
            return Err(InitError::ColorOutOfRange { color: c, max_colors: max_nr_colors });
        }
        i += 1;
    }
    Ok(())
}

} // verus!
