//! LoongArch64: the cache hierarchy and geometry in the `CPUCFG` words.

use vstd::prelude::*;
use vstd::arithmetic::power2::{lemma2_to64, lemma2_to64_rest, pow2};
use vstd::bits::lemma_u64_shl_is_mul;

verus! {

/// The number of the configuration word that tells which caches there
/// are: the word that `unified_cache_level` takes.
pub const CACHE_HIERARCHY_INDEX: usize = 0x10;

/// Whether bit `index` of `word` is set.
pub open spec fn bit_is_set(word: usize, index: nat) -> bool {
    (word as int / pow2(index) as int) % 2 == 1
}

/// Whether `cfg_10`, the configuration word 0x10, shows a cache at `level`
/// that is present and unified. Levels 1 to 3 have their two bits at 0 and 1, at 3 and 4,
/// and at 10 and 11.
pub open spec fn has_unified_cache(cfg_10: usize, level: int) -> bool {
    if level == 1 {
        bit_is_set(cfg_10, 0) && bit_is_set(cfg_10, 1)
    } else if level == 2 {
        bit_is_set(cfg_10, 3) && bit_is_set(cfg_10, 4)
    } else if level == 3 {
        bit_is_set(cfg_10, 10) && bit_is_set(cfg_10, 11)
    } else {
        false
    }
}

/// The outermost level with a unified cache, or 0 where there is none.
pub open spec fn outermost_unified_level(cfg_10: usize) -> int {
    if has_unified_cache(cfg_10, 3) {
        3
    } else if has_unified_cache(cfg_10, 2) {
        2
    } else if has_unified_cache(cfg_10, 1) {
        1
    } else {
        0
    }
}

/// Tests two bits of a word: both must be set.
fn both_bits_set(word: usize, first: u64, second: u64) -> (r: bool)
    requires
        first < 64,
        second < 64,
    ensures
        r == (bit_is_set(word, first as nat) && bit_is_set(word, second as nat)),
{
    let w: u64 = word as u64;
    proof {
        vstd::bits::lemma_u64_shr_is_div(w, first);
        vstd::bits::lemma_u64_shr_is_div(w, second);
        let a: u64 = w >> first;
        let b: u64 = w >> second;
        assert((a & 1 != 0) == (a % 2 == 1)) by (bit_vector);
        assert((b & 1 != 0) == (b % 2 == 1)) by (bit_vector);
    }
    (w >> first) & 1 != 0 && (w >> second) & 1 != 0
}

/// Finds the outermost cache that is present and unified, looking at
/// level 3 first, then 2, then 1. The answer is 0 where there is none.
pub fn unified_cache_level(cfg_10: usize) -> (level: usize)
    ensures
        level == outermost_unified_level(cfg_10),
{
    if both_bits_set(cfg_10, 10, 11) {
        3
    } else if both_bits_set(cfg_10, 3, 4) {
        2
    } else if both_bits_set(cfg_10, 0, 1) {
        1
    } else {
        0
    }
}

/// The number of the configuration word that describes the cache of
/// `level`: only levels 1 to 3 have one.
pub fn cache_config_index(level: usize) -> (index: Option<usize>)
    ensures
        index == (if level == 1 {
            Some(0x11usize)
        } else if level == 2 {
            Some(0x13usize)
        } else if level == 3 {
            Some(0x14usize)
        } else {
            None
        }),
{
    match level {
        1 => Some(0x11),
        2 => Some(0x13),
        3 => Some(0x14),
        _ => None,
    }
}

/// The binary logarithm of the number of sets: bits 16 to 23 of a cache's
/// configuration word.
pub open spec fn sets_log2(cache_cfg: usize) -> nat {
    ((cache_cfg as int / 0x1_0000) % 0x100) as nat
}

/// The binary logarithm of the line size in bytes: bits 24 to 30 of a
/// cache's configuration word.
pub open spec fn line_size_log2(cache_cfg: usize) -> nat {
    ((cache_cfg as int / 0x100_0000) % 0x80) as nat
}

/// The way size in bytes: the number of sets times the line size.
pub open spec fn way_size(cache_cfg: usize) -> nat {
    pow2(sets_log2(cache_cfg)) * pow2(line_size_log2(cache_cfg))
}

/// A power of two whose exponent is 64 or more does not fit 64 bits.
proof fn lemma_pow2_too_large(e: nat)
    requires
        e >= 64,
    ensures
        pow2(e) > u64::MAX,
{
    lemma2_to64_rest();
    if e > 64 {
        vstd::arithmetic::power2::lemma_pow2_strictly_increases(64, e);
    }
}

/// `1 << shift` is the power of two, if it fits.
fn pow2_u64(shift: u64) -> (r: Option<u64>)
    ensures
        r == (if pow2(shift as nat) > u64::MAX {
            None
        } else {
            Some(pow2(shift as nat) as u64)
        }),
{
    if shift >= 64 {
        proof {
            lemma_pow2_too_large(shift as nat);
        }
        None
    } else {
        proof {
            vstd::bits::lemma_u64_pow2_no_overflow(shift as nat);
            lemma_u64_shl_is_mul(1, shift);
        }
        Some(1u64 << shift)
    }
}

/// Computes the way size of the last-level cache from the configuration
/// words: `cfg_10`, the word at `CACHE_HIERARCHY_INDEX`, and `cache_cfg`,
/// the word that `cache_config_index(unified_cache_level(cfg_10))` names.
///
/// The answer is `None` where there is no unified cache, and where the
/// way size is more than 64 bits can hold.
pub fn get_llc_way_size(cfg_10: usize, cache_cfg: usize) -> (r: Option<u64>)
    ensures
        r == (if outermost_unified_level(cfg_10) == 0 || way_size(cache_cfg) > u64::MAX {
            None
        } else {
            Some(way_size(cache_cfg) as u64)
        }),
{
    let level = unified_cache_level(cfg_10);
    if cache_config_index(level).is_none() {
        return None;
    }
    let w: u64 = cache_cfg as u64;
    let sets_shift: u64 = (w >> 16) & 0xff;
    let line_shift: u64 = (w >> 24) & 0x7f;
    assert(sets_shift == (w / 0x1_0000) % 0x100) by (bit_vector)
        requires
            sets_shift == (w >> 16) & 0xff,
    ;
    assert(line_shift == (w / 0x100_0000) % 0x80) by (bit_vector)
        requires
            line_shift == (w >> 24) & 0x7f,
    ;
    proof {
        vstd::arithmetic::power2::lemma_pow2_pos(sets_shift as nat);
        vstd::arithmetic::power2::lemma_pow2_pos(line_shift as nat);
    }
    let num_sets: u64 = match pow2_u64(sets_shift) {
        Some(n) => n,
        None => {
            assert(way_size(cache_cfg) > u64::MAX) by (nonlinear_arith)
                requires
                    way_size(cache_cfg) == pow2(sets_shift as nat) * pow2(line_shift as nat),
                    pow2(sets_shift as nat) > u64::MAX,
                    pow2(line_shift as nat) > 0,
            ;
            return None;
        },
    };
    let line_size: u64 = match pow2_u64(line_shift) {
        Some(n) => n,
        None => {
            assert(way_size(cache_cfg) > u64::MAX) by (nonlinear_arith)
                requires
                    way_size(cache_cfg) == pow2(sets_shift as nat) * pow2(line_shift as nat),
                    pow2(line_shift as nat) > u64::MAX,
                    pow2(sets_shift as nat) > 0,
            ;
            return None;
        },
    };
    num_sets.checked_mul(line_size)
}

} // verus!
