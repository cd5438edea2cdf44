use llc_coloring::arch::aarch64;
use llc_coloring::arch::loongarch64;

#[test]
fn aarch64_outermost_unified_level_is_found() {
    assert_eq!(aarch64::unified_cache_level(0), 0);
    assert_eq!(aarch64::unified_cache_level(0b100), 1);
    assert_eq!(aarch64::unified_cache_level(0b100 << 3), 2);
    assert_eq!(aarch64::unified_cache_level((0b100 << 3) | 0b100), 2);
    assert_eq!(aarch64::unified_cache_level(0b100 << 18), 7);
    assert_eq!(aarch64::unified_cache_level(0x23), 2);
    assert_eq!(aarch64::unified_cache_level(0x123), 3);
    assert_eq!(aarch64::unified_cache_level(0b100_011_011), 3);
}

#[test]
fn aarch64_fields_that_are_no_unified_cache_are_passed_over() {
    assert_eq!(aarch64::unified_cache_level(0b011), 0);
    assert_eq!(aarch64::unified_cache_level(0b011 << 3), 0);
    assert_eq!(aarch64::unified_cache_level(0b010_001), 0);
    assert_eq!(aarch64::unified_cache_level(0b100 << 21), 0);
    assert_eq!(aarch64::unified_cache_level(0b100 << 24), 0);
    assert_eq!(aarch64::unified_cache_level((0b111 << 21) | 0x23), 2);
    assert_eq!(aarch64::unified_cache_level(0b1000), 0);
}

#[test]
fn aarch64_selector_is_the_level_above_the_lowest_bit() {
    assert_eq!(aarch64::cache_selector(1), 0);
    assert_eq!(aarch64::cache_selector(2), 2);
    assert_eq!(aarch64::cache_selector(3), 4);
    assert_eq!(aarch64::cache_selector(7), 12);
}

#[test]
fn aarch64_way_size_is_line_size_times_sets() {
    assert_eq!(aarch64::get_llc_way_size(0x23, 2, 1023), Some(65536));
    assert_eq!(aarch64::get_llc_way_size(0b100, 2, 1023), Some(65536));
    assert_eq!(aarch64::get_llc_way_size(0x123, 0, 0), Some(16));
    assert_eq!(aarch64::get_llc_way_size(0x123, 7, 0xff_ffff), Some(2048 << 24));
    assert_eq!(aarch64::get_llc_way_size(0x123, 0xffff_fff8 | 2, 2047), Some(64 * 2048));
}

#[test]
fn aarch64_selector_picks_the_outermost_unified_cache() {
    assert_eq!(aarch64::cache_selector(aarch64::unified_cache_level(0b100)), 0);
    assert_eq!(aarch64::cache_selector(aarch64::unified_cache_level(0x23)), 2);
    assert_eq!(aarch64::cache_selector(aarch64::unified_cache_level(0x123)), 4);
}

#[test]
fn aarch64_no_unified_cache_gives_no_way_size() {
    assert_eq!(aarch64::get_llc_way_size(0, 2, 1023), None);
    assert_eq!(aarch64::get_llc_way_size(0b011, 2, 1023), None);
    assert_eq!(aarch64::get_llc_way_size(0b100 << 21, 2, 1023), None);
}

#[test]
fn aarch64_way_size_that_does_not_fit_gives_none() {
    assert_eq!(aarch64::get_llc_way_size(0x123, 2, u64::MAX), None);
    assert_eq!(aarch64::get_llc_way_size(0x123, 2, u64::MAX / 2), None);
}

#[test]
fn aarch64_extension_version_is_read_from_the_feature_registers() {
    let v = aarch64::arch_llc_coloring_init(0x1 << 40, 0x1 << 16);
    assert_eq!(v, aarch64::MpamVersion { major: 1, minor: 1 });
    let v = aarch64::arch_llc_coloring_init(0, 0);
    assert_eq!(v, aarch64::MpamVersion { major: 0, minor: 0 });
    let v = aarch64::arch_llc_coloring_init(u64::MAX, u64::MAX);
    assert_eq!(v, aarch64::MpamVersion { major: 15, minor: 15 });
    let v = aarch64::arch_llc_coloring_init(0xab_cdef_0123_4567, 0x1234_5678);
    assert_eq!(v, aarch64::MpamVersion { major: 0xd, minor: 0x4 });
}

#[test]
fn loongarch64_outermost_unified_level_is_found() {
    assert_eq!(loongarch64::unified_cache_level(0), 0);
    assert_eq!(loongarch64::unified_cache_level(0b11), 1);
    assert_eq!(loongarch64::unified_cache_level(0b1), 0);
    assert_eq!(loongarch64::unified_cache_level(0b10), 0);
    assert_eq!(loongarch64::unified_cache_level(0b11000), 2);
    assert_eq!(loongarch64::unified_cache_level(0b11011), 2);
    assert_eq!(loongarch64::unified_cache_level(0b1100_0000_0000), 3);
    assert_eq!(loongarch64::unified_cache_level(0b1100_0001_1011), 3);
    assert_eq!(loongarch64::unified_cache_level(0b0100_0001_1011), 2);
}

#[test]
fn loongarch64_hierarchy_word_is_word_sixteen() {
    assert_eq!(loongarch64::CACHE_HIERARCHY_INDEX, 16);
}

#[test]
fn loongarch64_configuration_word_of_each_level() {
    assert_eq!(loongarch64::cache_config_index(0), None);
    assert_eq!(loongarch64::cache_config_index(1), Some(0x11));
    assert_eq!(loongarch64::cache_config_index(2), Some(0x13));
    assert_eq!(loongarch64::cache_config_index(3), Some(0x14));
    assert_eq!(loongarch64::cache_config_index(4), None);
}

#[test]
fn loongarch64_way_size_is_sets_times_line_size() {
    let cache_cfg: usize = (10 << 16) | (6 << 24);
    assert_eq!(loongarch64::get_llc_way_size(0b1100_0000_0000, cache_cfg), Some(0x10000));
    assert_eq!(loongarch64::get_llc_way_size(0b11, 0), Some(1));
    assert_eq!(loongarch64::get_llc_way_size(0b11, 0xffff | (8 << 16) | (6 << 24)), Some(1 << 14));
}

#[test]
fn loongarch64_no_unified_cache_gives_no_way_size() {
    let cache_cfg: usize = (10 << 16) | (6 << 24);
    assert_eq!(loongarch64::get_llc_way_size(0, cache_cfg), None);
    assert_eq!(loongarch64::get_llc_way_size(0b0100_0000_1001, cache_cfg), None);
}

#[test]
fn loongarch64_way_size_that_does_not_fit_gives_none() {
    assert_eq!(loongarch64::get_llc_way_size(0b11, (40 << 16) | (30 << 24)), None);
    assert_eq!(loongarch64::get_llc_way_size(0b11, 200 << 16), None);
    assert_eq!(loongarch64::get_llc_way_size(0b11, 100 << 24), None);
    assert_eq!(loongarch64::get_llc_way_size(0b11, (32 << 16) | (31 << 24)), Some(1 << 63));
}
