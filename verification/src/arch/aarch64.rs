//! AArch64: the cache hierarchy in `CLIDR_EL1`, the geometry of one cache
//! in `CCSIDR_EL1`, and the partitioning extension in the feature
//! registers.

use vstd::prelude::*;
use vstd::arithmetic::power2::{lemma2_to64, pow2};
use vstd::bits::lemma_u64_shl_is_mul;

verus! {

/// The number of cache levels that `CLIDR_EL1` describes.
pub const CLIDR_CTYPEN_LEVELS: usize = 7;

/// The cache type that marks a unified cache.
pub const UNIFIED_CACHE: u64 = 0b100;

/// The cache type of level `n`, for `n` from 1 to 7: the three bits of
/// `clidr_el1` from bit `3 * (n - 1)` on.
pub open spec fn cache_type(clidr_el1: u64, n: int) -> int {
    (clidr_el1 as int / pow2((3 * (n - 1)) as nat) as int) % 8
}

/// Whether `level` is the outermost level at which `clidr_el1` shows a
/// unified cache, and 0 if it shows none at any level.
pub open spec fn is_unified_cache_level(clidr_el1: u64, level: int) -> bool {
    &&& 0 <= level <= CLIDR_CTYPEN_LEVELS
    &&& level != 0 ==> cache_type(clidr_el1, level) == UNIFIED_CACHE
    &&& forall|n: int|
        level < n <= CLIDR_CTYPEN_LEVELS ==> #[trigger] cache_type(clidr_el1, n) != UNIFIED_CACHE
}

proof fn lemma_cache_type_bits(clidr_el1: u64, n: u64)
    requires
        1 <= n <= 7,
    ensures
        ((clidr_el1 >> ((n - 1) * 3)) & 0x7) as int == cache_type(clidr_el1, n as int),
{
    let shift: u64 = ((n - 1) * 3) as u64;
    let shifted: u64 = clidr_el1 >> shift;
    vstd::bits::lemma_u64_shr_is_div(clidr_el1, shift);
    assert(shifted & 0x7 == shifted % 8) by (bit_vector);
}

/// Finds the outermost unified cache: the greatest level from 7 down to 1
/// whose cache type is unified, or 0 where there is none.
pub fn unified_cache_level(clidr_el1: u64) -> (level: usize)
    ensures
        is_unified_cache_level(clidr_el1, level as int),
{
    let mut n: u64 = 7;
    while n >= 1
        invariant
            n <= 7,
            forall|m: int| n < m <= 7 ==> #[trigger] cache_type(clidr_el1, m) != UNIFIED_CACHE,
        decreases n,
    {
        proof {
            lemma_cache_type_bits(clidr_el1, n);
        }
        let ctype_n: u64 = (clidr_el1 >> ((n - 1) * 3)) & 0x7;
        if ctype_n == UNIFIED_CACHE {
            return n as usize;
        }
        n -= 1;
    }
    0
}

/// The value that selects the unified or data cache of `level` in
/// `CSSELR_EL1`: the level, counted from 0, above the lowest bit.
pub fn cache_selector(level: usize) -> (csselr_el1: u64)
    requires
        1 <= level <= CLIDR_CTYPEN_LEVELS,
    ensures
        csselr_el1 == 2 * (level - 1),
{
    let index: u64 = (level - 1) as u64;
    assert(index << 1 == 2 * index) by (bit_vector)
        requires
            index < 7,
    ;
    index << 1
}

/// The line size in bytes that `ccsidr_el1` gives: its three lowest bits
/// hold the binary logarithm of the line size, less 4.
pub open spec fn line_size(ccsidr_el1: u64) -> nat {
    pow2((ccsidr_el1 % 8 + 4) as nat)
}

/// The way size in bytes of the cache that `ccsidr_el1` describes, with
/// `num_sets_field` the content of its field for the number of sets, which
/// holds that number less 1.
pub open spec fn way_size(ccsidr_el1: u64, num_sets_field: u64) -> nat {
    line_size(ccsidr_el1) * (num_sets_field + 1) as nat
}

/// Computes the way size of the last-level cache from the registers'
/// values: `clidr_el1`, and `ccsidr_el1` with its field `num_sets_field`
/// as read with the cache of `unified_cache_level(clidr_el1)` selected.
///
/// The answer is `None` where there is no unified cache, and where the
/// way size is more than a `usize` can hold.
pub fn get_llc_way_size(clidr_el1: u64, ccsidr_el1: u64, num_sets_field: u64) -> (r: Option<usize>)
    ensures
        r == (if is_unified_cache_level(clidr_el1, 0) || way_size(ccsidr_el1, num_sets_field)
            > usize::MAX {
            None
        } else {
            Some(way_size(ccsidr_el1, num_sets_field) as usize)
        }),
{
    let level = unified_cache_level(clidr_el1);
    if level == 0 {
        return None;
    }
    assert(!is_unified_cache_level(clidr_el1, 0)) by {
        assert(cache_type(clidr_el1, level as int) == UNIFIED_CACHE);
    }
    let low: u64 = ccsidr_el1 & 0x7;
    assert(low == ccsidr_el1 % 8) by (bit_vector)
        requires
            low == ccsidr_el1 & 0x7,
    ;
    let shift: u64 = low + 4;
    proof {
        lemma2_to64();
        lemma_u64_shl_is_mul(1, shift);
    }
    let line: u64 = 1u64 << shift;
    assert(line == line_size(ccsidr_el1));
    let num_sets: u64 = match num_sets_field.checked_add(1) {
        Some(n) => n,
        None => {
            assert(way_size(ccsidr_el1, num_sets_field) > usize::MAX) by (nonlinear_arith)
                requires
                    way_size(ccsidr_el1, num_sets_field) == line * (num_sets_field + 1),
                    line >= 16,
                    num_sets_field + 1 > u64::MAX,
                    usize::MAX <= u64::MAX,
            ;
            return None;
        },
    };
    match line.checked_mul(num_sets) {
        Some(way) => if way > usize::MAX as u64 {
            None
        } else {
            Some(way as usize)
        },
        None => None,
    }
}

/// The version of the memory partitioning and monitoring extension.
#[derive(Clone, Copy, Debug, PartialEq, Eq, Structural)]
pub struct MpamVersion {
    pub major: u64,
    pub minor: u64,
}

/// Reads the version of the partitioning extension out of the processor
/// feature registers: the major version is the four bits of
/// `id_aa64pfr0_el1` from bit 40 on, the minor version the four bits of
/// `id_aa64pfr1_el1` from bit 16 on. This only reports; coloring does not
/// depend on it.
pub fn arch_llc_coloring_init(id_aa64pfr0_el1: u64, id_aa64pfr1_el1: u64) -> (version: MpamVersion)
    ensures
        version.major == (id_aa64pfr0_el1 / 0x100_0000_0000) % 16,
        version.minor == (id_aa64pfr1_el1 / 0x1_0000) % 16,
{
    let major: u64 = (id_aa64pfr0_el1 >> 40) & 0xf;
    let minor: u64 = (id_aa64pfr1_el1 >> 16) & 0xf;
    assert(major == (id_aa64pfr0_el1 / 0x100_0000_0000) % 16) by (bit_vector)
        requires
            major == (id_aa64pfr0_el1 >> 40) & 0xf,
    ;
    assert(minor == (id_aa64pfr1_el1 / 0x1_0000) % 16) by (bit_vector)
        requires
            minor == (id_aa64pfr1_el1 >> 16) & 0xf,
    ;
    MpamVersion { major, minor }
}

} // verus!
