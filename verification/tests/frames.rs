use cloudos::memory::{
    canonical, phys_to_virt, BootInfoFrameAllocator, MemoryRegion, FRAME_SIZE,
};

fn region(start: u64, end: u64, usable: bool) -> MemoryRegion {
    MemoryRegion { start, end, usable }
}

#[test]
fn frames_come_in_map_order() {
    let map = [
        region(0x0, 0x1000, false),
        region(0x10_0000, 0x10_3000, true),
        region(0x20_0000, 0x30_0000, false),
        region(0x40_0000, 0x40_2000, true),
    ];
    let mut allocator = BootInfoFrameAllocator::init(&map);
    let expected: [u64; 5] = [0x10_0000, 0x10_1000, 0x10_2000, 0x40_0000, 0x40_1000];
    for frame in expected {
        assert_eq!(allocator.allocate_frame(), Some(frame));
    }
    assert_eq!(allocator.allocate_frame(), None);
    assert_eq!(allocator.allocate_frame(), None);
}

#[test]
fn no_frame_is_handed_out_twice() {
    let map = [region(0x5000, 0x20_5000, true), region(0x80_0000, 0x90_0000, true)];
    let mut allocator = BootInfoFrameAllocator::init(&map);
    let mut previous: Option<u64> = None;
    let mut count: usize = 0;
    while let Some(frame) = allocator.allocate_frame() {
        assert_eq!(frame % FRAME_SIZE, 0);
        assert!((0x5000 <= frame && frame < 0x20_5000) || (0x80_0000 <= frame && frame < 0x90_0000));
        if let Some(before) = previous {
            assert!(before < frame);
        }
        previous = Some(frame);
        count += 1;
    }
    assert_eq!(count, 512 + 256);
}

#[test]
fn usable_frame_does_not_move_the_cursor() {
    let map = [region(0x1000, 0x4000, true)];
    let allocator = BootInfoFrameAllocator::init(&map);
    assert_eq!(allocator.usable_frame(2), Some(0x3000));
    assert_eq!(allocator.usable_frame(0), Some(0x1000));
    assert_eq!(allocator.usable_frame(3), None);
    assert_eq!(allocator.usable_frame(usize::MAX), None);
}

#[test]
fn a_region_that_is_not_aligned_gives_the_frames_inside_it() {
    let map = [region(0x1800, 0x3001, true)];
    let mut allocator = BootInfoFrameAllocator::init(&map);
    assert_eq!(allocator.allocate_frame(), Some(0x2000));
    assert_eq!(allocator.allocate_frame(), Some(0x3000));
    assert_eq!(allocator.allocate_frame(), None);
}

#[test]
fn empty_and_reversed_regions_have_no_frames() {
    let map = [
        region(0x2000, 0x2000, true),
        region(0x5000, 0x1000, true),
        region(0x1001, 0x2000, true),
        region(u64::MAX - 10, u64::MAX, true),
    ];
    let mut allocator = BootInfoFrameAllocator::init(&map);
    assert_eq!(allocator.allocate_frame(), None);
}

#[test]
fn an_empty_map_has_no_frames() {
    let mut allocator = BootInfoFrameAllocator::init(&[]);
    assert_eq!(allocator.allocate_frame(), None);
}

#[test]
fn the_last_frame_of_the_address_space_is_found() {
    let last: u64 = u64::MAX - 4095;
    let map = [region(last - 1, u64::MAX, true)];
    let mut allocator = BootInfoFrameAllocator::init(&map);
    assert_eq!(allocator.allocate_frame(), Some(last));
    assert_eq!(allocator.allocate_frame(), None);
}

#[test]
fn physical_memory_is_read_behind_the_offset() {
    assert_eq!(phys_to_virt(0x1000_0000_0000, 0x1000), 0x1000_0000_1000);
    assert_eq!(phys_to_virt(0, 0), 0);
}

#[test]
fn canonical_addresses_have_equal_high_bits() {
    assert!(canonical(0));
    assert!(canonical(0x7fff_ffff_ffff));
    assert!(!canonical(0x8000_0000_0000));
    assert!(!canonical(0xffff_7fff_ffff_ffff));
    assert!(canonical(0xffff_8000_0000_0000));
    assert!(canonical(u64::MAX));
}

#[test]
fn an_empty_region_inside_another_takes_no_frame_twice() {
    let map = [region(0x1000, 0x4000, true), region(0x2000, 0x2000, true)];
    let mut allocator = BootInfoFrameAllocator::init(&map);
    assert_eq!(allocator.allocate_frame(), Some(0x1000));
    assert_eq!(allocator.allocate_frame(), Some(0x2000));
    assert_eq!(allocator.allocate_frame(), Some(0x3000));
    assert_eq!(allocator.allocate_frame(), None);
}
