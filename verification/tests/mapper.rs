use llc_coloring::error::OutOfMemory;
use llc_coloring::llc_coloring::{llc_coloring_init, ColoringConfig, LlcColoring};
use llc_coloring::memory::frame::{contains_color, ColorFrameAllocator, MAX_FRAMES};
use llc_coloring::memory::mapper::{phys_virt_offset, Mapper};
use llc_coloring::memory::{MemFlags, MemoryRegion};

fn enabled_authority(way_size: usize, colors: Option<Vec<usize>>) -> LlcColoring {
    let mut authority = LlcColoring::new();
    let config =
        ColoringConfig { mode: 1, llc_total_size: None, llc_nr_ways: None, hvisor_color: colors };
    llc_coloring_init(&mut authority, &config, Some(way_size)).unwrap();
    authority
}

#[test]
fn offset_is_only_that_of_the_offset_strategy() {
    assert_eq!(Mapper::Offset(0x4000).offset(), 0x4000);
    assert_eq!(Mapper::Fixed(0x8000).offset(), 0);
    assert_eq!(Mapper::Color.offset(), 0);
}

#[test]
fn no_allocator_without_published_colors() {
    assert!(ColorFrameAllocator::new(&LlcColoring::new()).is_none());
    let mut off = LlcColoring::new();
    let config = ColoringConfig { mode: 0, llc_total_size: None, llc_nr_ways: None, hvisor_color: None };
    llc_coloring_init(&mut off, &config, None).unwrap();
    assert!(ColorFrameAllocator::new(&off).is_none());
}

#[test]
fn offset_and_fixed_never_fail_nor_allocate() {
    let authority = enabled_authority(0x10000, None);
    let mut allocator = ColorFrameAllocator::new(&authority).unwrap();
    allocator.add_frames(0, 1);
    assert_eq!(Mapper::Offset(0x1000).map_addr(0x5000, &mut allocator), Ok(0x4000));
    assert_eq!(Mapper::Offset(0x1000).map_fn(0x5000usize, &mut allocator), Ok(0x4000));
    assert_eq!(Mapper::Offset(0x10).map_addr(0x8, &mut allocator), Ok(usize::MAX - 7));
    assert_eq!(Mapper::Offset(0).map_addr(usize::MAX, &mut allocator), Ok(usize::MAX));
    assert_eq!(Mapper::Fixed(0x7000).map_addr(0x5000, &mut allocator), Ok(0x7000));
    assert_eq!(Mapper::Fixed(0x7000).map_fn(0x9000usize, &mut allocator), Ok(0x7000));
    assert_eq!(Mapper::Color.map_addr(0x5000, &mut allocator), Ok(0));
    assert_eq!(Mapper::Color.map_addr(0x5000, &mut allocator), Err(OutOfMemory));
}

#[test]
fn one_frame_left_for_two_pages() {
    let authority = enabled_authority(0x10000, None);
    let mut allocator = ColorFrameAllocator::new(&authority).unwrap();
    allocator.add_frames(16, 17);
    let region = MemoryRegion::<usize>::new_with_color_mapper(0x4000_0000, 0x2000, MemFlags { bits: 3 });
    assert_eq!(region.mapper.map_fn(region.start, &mut allocator), Ok(16 * 4096));
    assert_eq!(region.mapper.map_fn(region.start + 4096, &mut allocator), Err(OutOfMemory));
    assert_eq!(region.mapper.map_fn(region.start + 4096, &mut allocator), Err(OutOfMemory));
}

#[test]
fn empty_allocator_is_out_of_memory() {
    let authority = enabled_authority(0x10000, None);
    let mut allocator = ColorFrameAllocator::new(&authority).unwrap();
    assert_eq!(allocator.alloc_frame(), Err(OutOfMemory));
    allocator.add_frames(5, 5);
    assert_eq!(allocator.alloc_frame(), Err(OutOfMemory));
}

#[test]
fn only_frames_of_active_colors_are_kept() {
    let authority = enabled_authority(0x10000, None);
    let mut allocator = ColorFrameAllocator::new(&authority).unwrap();
    allocator.add_frames(0, 48);
    let mut frames: Vec<usize> = Vec::new();
    while let Ok(frame) = allocator.alloc_frame() {
        frames.push(frame);
    }
    frames.sort();
    assert_eq!(frames, vec![0, 1, 2, 3, 16, 17, 18, 19, 32, 33, 34, 35]);
    assert_eq!(allocator.alloc_frame(), Err(OutOfMemory));
}

#[test]
fn frames_of_inactive_colors_are_left_alone() {
    let authority = enabled_authority(0x10000, None);
    let mut allocator = ColorFrameAllocator::new(&authority).unwrap();
    allocator.add_frames(4, 16);
    assert_eq!(allocator.alloc_frame(), Err(OutOfMemory));
}

#[test]
fn every_color_mapping_gets_a_frame_of_its_own() {
    let authority = enabled_authority(0x4000, Some(vec![3, 1]));
    let mut allocator = ColorFrameAllocator::new(&authority).unwrap();
    allocator.add_frames(100, 116);
    let mut seen: Vec<usize> = Vec::new();
    for page in 0..8usize {
        let paddr = Mapper::Color.map_fn(page * 4096, &mut allocator).unwrap();
        assert_eq!(paddr % 4096, 0);
        let color = (paddr / 4096) % 4;
        assert!(color == 1 || color == 3);
        assert!(paddr / 4096 >= 100 && paddr / 4096 < 116);
        assert!(!seen.contains(&paddr));
        seen.push(paddr);
    }
    assert_eq!(Mapper::Color.map_fn(0usize, &mut allocator), Err(OutOfMemory));
}

#[test]
fn frames_added_later_can_be_allocated() {
    let authority = enabled_authority(0x1000, None);
    let mut allocator = ColorFrameAllocator::new(&authority).unwrap();
    allocator.add_frames(7, 8);
    assert_eq!(allocator.alloc_frame(), Ok(7));
    assert_eq!(allocator.alloc_frame(), Err(OutOfMemory));
    allocator.add_frames(MAX_FRAMES - 1, MAX_FRAMES);
    assert_eq!(Mapper::Color.map_addr(0, &mut allocator), Ok((MAX_FRAMES - 1) * 4096));
    assert_eq!(allocator.alloc_frame(), Err(OutOfMemory));
}

#[test]
fn color_membership_is_tested() {
    assert!(contains_color(&vec![0, 5, 2], 5));
    assert!(contains_color(&vec![0, 5, 2], 2));
    assert!(!contains_color(&vec![0, 5, 2], 1));
    assert!(!contains_color(&vec![], 0));
}

#[test]
fn offset_between_virtual_and_physical_wraps() {
    assert_eq!(phys_virt_offset(0x9000, 0x4000), 0x5000);
    assert_eq!(phys_virt_offset(0x4000, 0x9000), usize::MAX - 0x4fff);
    assert_eq!(phys_virt_offset(0, 0), 0);
}

#[test]
fn region_with_empty_mapper_maps_every_page_to_one() {
    let flags = MemFlags { bits: 1 };
    let region = MemoryRegion::<usize>::new_with_empty_mapper(0x1000, 0x3000, flags, 0xdead_0000);
    assert_eq!(region.start, 0x1000);
    assert_eq!(region.size, 0x3000);
    assert_eq!(region.flags, flags);
    assert_eq!(region.mapper, Mapper::Fixed(0xdead_0000));
    let authority = enabled_authority(0x1000, None);
    let mut allocator = ColorFrameAllocator::new(&authority).unwrap();
    assert_eq!(region.mapper.map_fn(0x1000usize, &mut allocator), Ok(0xdead_0000));
    assert_eq!(region.mapper.map_fn(0x3000usize, &mut allocator), Ok(0xdead_0000));
}

#[test]
fn region_with_offset_mapper_maps_start_to_start() {
    let flags = MemFlags { bits: 7 };
    let region = MemoryRegion::<usize>::new_with_offset_mapper(0x8000_0000, 0x4000_0000, 0x10000, flags);
    assert_eq!(region.start, 0x8000_0000);
    assert_eq!(region.size, 0x10000);
    assert_eq!(region.flags, flags);
    assert_eq!(region.mapper, Mapper::Offset(0x4000_0000));
    assert_eq!(region.mapper.offset(), 0x4000_0000);
    let authority = enabled_authority(0x1000, None);
    let mut allocator = ColorFrameAllocator::new(&authority).unwrap();
    assert_eq!(region.mapper.map_fn(0x8000_0000usize, &mut allocator), Ok(0x4000_0000));
    assert_eq!(region.mapper.map_fn(0x8000_2345usize, &mut allocator), Ok(0x4000_2345));
    let below = MemoryRegion::<usize>::new_with_offset_mapper(0x1000, 0x5000, 0x1000, flags);
    assert_eq!(below.mapper, Mapper::Offset(usize::MAX - 0x3fff));
    assert_eq!(below.mapper.map_fn(0x1800usize, &mut allocator), Ok(0x5800));
}

#[test]
fn region_with_color_mapper_has_the_color_strategy() {
    let flags = MemFlags { bits: 0 };
    let region = MemoryRegion::<usize>::new_with_color_mapper(0x2000, 0x4000, flags);
    assert_eq!(region.start, 0x2000);
    assert_eq!(region.size, 0x4000);
    assert_eq!(region.flags, flags);
    assert_eq!(region.mapper, Mapper::Color);
}

#[test]
fn region_is_made_of_its_parts() {
    let region = MemoryRegion::new(0x10usize, 0x20, MemFlags { bits: 2 }, Mapper::Fixed(0x30));
    assert_eq!(region.start, 0x10);
    assert_eq!(region.size, 0x20);
    assert_eq!(region.flags.bits, 2);
    assert_eq!(region.mapper, Mapper::Fixed(0x30));
}

#[test]
fn plain_strategies_need_no_allocator() {
    assert_eq!(Mapper::Offset(0x1000).map_plain(0x5000), Some(0x4000));
    assert_eq!(Mapper::Offset(0x10).map_plain(0x8), Some(usize::MAX - 7));
    assert_eq!(Mapper::Offset(0).map_plain(0), Some(0));
    assert_eq!(Mapper::Fixed(0x7000).map_plain(0x5000), Some(0x7000));
    assert_eq!(Mapper::Fixed(0x7000).map_plain(usize::MAX), Some(0x7000));
    assert_eq!(Mapper::Color.map_plain(0x5000), None);
}

#[test]
fn plain_answer_is_that_of_the_full_translation() {
    let authority = enabled_authority(0x1000, None);
    let mut allocator = ColorFrameAllocator::new(&authority).unwrap();
    for mapper in [Mapper::Offset(0x2000), Mapper::Offset(usize::MAX), Mapper::Fixed(0x9000)] {
        for vaddr in [0usize, 0x1fff, 0x2000, 0x8000_0000, usize::MAX] {
            assert_eq!(mapper.map_plain(vaddr), mapper.map_addr(vaddr, &mut allocator).ok());
        }
    }
}

#[test]
fn regions_translate_while_coloring_is_off() {
    let flags = MemFlags { bits: 3 };
    let region = MemoryRegion::<usize>::new_with_offset_mapper(0x8000_0000, 0x4000_0000, 0x10000, flags);
    assert_eq!(region.mapper.map_plain(0x8000_1000), Some(0x4000_1000));
    let empty = MemoryRegion::<usize>::new_with_empty_mapper(0x1000, 0x3000, flags, 0xdead_0000);
    assert_eq!(empty.mapper.map_plain(0x2000), Some(0xdead_0000));
    let colored = MemoryRegion::<usize>::new_with_color_mapper(0x2000, 0x4000, flags);
    assert_eq!(colored.mapper.map_plain(0x2000), None);
}
