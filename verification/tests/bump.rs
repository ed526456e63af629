use cloudos::allocator::bump::BumpAllocator;
use cloudos::allocator::{align_up, Dummy};

fn heap(start: usize, size: usize) -> BumpAllocator {
    let mut bump = BumpAllocator::new();
    bump.init(start, size);
    bump
}

#[test]
fn align_up_keeps_an_aligned_address() {
    assert_eq!(align_up(0x1000, 0x1000), 0x1000);
    assert_eq!(align_up(0, 8), 0);
    assert_eq!(align_up(17, 1), 17);
}

#[test]
fn align_up_rounds_to_the_next_multiple() {
    assert_eq!(align_up(1, 8), 8);
    assert_eq!(align_up(9, 8), 16);
    assert_eq!(align_up(0x1001, 0x1000), 0x2000);
    assert_eq!(align_up(4095, 4096), 4096);
    assert_eq!(align_up(usize::MAX - 7, 8), usize::MAX - 7);
}

#[test]
fn new_allocator_has_an_empty_heap() {
    let mut bump = BumpAllocator::new();
    assert_eq!(bump.heap_start(), 0);
    assert_eq!(bump.heap_end(), 0);
    assert_eq!(bump.next(), 0);
    assert_eq!(bump.allocations(), 0);
    assert_eq!(bump.allocate(1, 1), None);
    assert_eq!(bump.allocate(0, 1), Some(0));
}

#[test]
fn init_sets_the_bounds_and_the_cursor() {
    let bump = heap(0x4000, 0x1000);
    assert_eq!(bump.heap_start(), 0x4000);
    assert_eq!(bump.heap_end(), 0x5000);
    assert_eq!(bump.next(), 0x4000);
    assert_eq!(bump.allocations(), 0);
}

#[test]
fn allocate_hands_out_the_aligned_cursor() {
    let mut bump = heap(0x1001, 0x1000);
    assert_eq!(bump.allocate(3, 1), Some(0x1001));
    assert_eq!(bump.next(), 0x1004);
    assert_eq!(bump.allocate(8, 8), Some(0x1008));
    assert_eq!(bump.next(), 0x1010);
    assert_eq!(bump.allocate(1, 64), Some(0x1040));
    assert_eq!(bump.next(), 0x1041);
    assert_eq!(bump.allocations(), 3);
}

#[test]
fn returned_addresses_are_aligned() {
    let mut bump = heap(0x10_0003, 0x10_0000);
    let mut shift: u32 = 0;
    while shift < 12 {
        let align: usize = 1 << shift;
        let addr = bump.allocate(5, align).unwrap();
        assert_eq!(addr % align, 0);
        shift += 1;
    }
}

#[test]
fn live_blocks_lie_in_the_heap_and_do_not_overlap() {
    let mut bump = heap(0x2000, 0x400);
    let sizes: [usize; 6] = [1, 7, 64, 3, 100, 16];
    let aligns: [usize; 6] = [1, 8, 64, 2, 4, 16];
    let mut blocks: Vec<(usize, usize)> = Vec::new();
    for i in 0..6 {
        let addr = bump.allocate(sizes[i], aligns[i]).unwrap();
        assert!(0x2000 <= addr && addr + sizes[i] <= 0x2400);
        for &(other, size) in blocks.iter() {
            assert_ne!(other, addr);
            assert!(other + size <= addr || addr + sizes[i] <= other);
        }
        blocks.push((addr, sizes[i]));
    }
    bump.deallocate(blocks[2].0, 64, 64);
    let addr = bump.allocate(32, 32).unwrap();
    for &(other, size) in blocks.iter() {
        assert!(other + size <= addr || addr + 32 <= other);
    }
}

#[test]
fn releasing_the_only_allocation_resets_the_cursor() {
    let mut bump = heap(0x8000, 0x100);
    let addr = bump.allocate(40, 8).unwrap();
    assert_eq!(bump.next(), 0x8028);
    bump.deallocate(addr, 40, 8);
    assert_eq!(bump.next(), 0x8000);
    assert_eq!(bump.allocations(), 0);
    assert_eq!(bump.allocate(40, 8), Some(0x8000));
}

#[test]
fn releasing_one_of_two_keeps_the_cursor() {
    let mut bump = heap(0x8000, 0x100);
    let first = bump.allocate(16, 16).unwrap();
    let second = bump.allocate(16, 16).unwrap();
    bump.deallocate(first, 16, 16);
    assert_eq!(bump.next(), 0x8020);
    assert_eq!(bump.allocations(), 1);
    bump.deallocate(second, 16, 16);
    assert_eq!(bump.next(), 0x8000);
}

#[test]
fn a_request_past_the_end_changes_nothing() {
    let mut bump = heap(0x8000, 0x100);
    assert_eq!(bump.allocate(0x80, 1), Some(0x8000));
    assert_eq!(bump.allocate(0x81, 1), None);
    assert_eq!(bump.heap_start(), 0x8000);
    assert_eq!(bump.heap_end(), 0x8100);
    assert_eq!(bump.next(), 0x8080);
    assert_eq!(bump.allocations(), 1);
    assert_eq!(bump.allocate(0x80, 1), Some(0x8080));
    assert_eq!(bump.allocate(1, 1), None);
    assert_eq!(bump.allocate(0, 1), Some(0x8100));
}

#[test]
fn a_request_whose_padding_does_not_fit_fails() {
    let mut bump = heap(0x8001, 0xff);
    assert_eq!(bump.allocate(1, 0x1000), None);
    assert_eq!(bump.next(), 0x8001);
    assert_eq!(bump.allocations(), 0);
}

#[test]
fn a_request_that_overflows_the_address_space_fails() {
    let mut bump = heap(usize::MAX - 0x10, 0x10);
    assert_eq!(bump.allocate(1, 0x100), None);
    assert_eq!(bump.allocate(usize::MAX, 1), None);
    assert_eq!(bump.next(), usize::MAX - 0x10);
    assert_eq!(bump.allocations(), 0);
    assert_eq!(bump.allocate(0x10, 1), Some(usize::MAX - 0x10));
}

#[test]
fn init_keeps_the_count_of_allocations() {
    let mut bump = heap(0x8000, 0x100);
    bump.allocate(8, 8).unwrap();
    bump.init(0x9000, 0x100);
    assert_eq!(bump.allocations(), 1);
    assert_eq!(bump.next(), 0x9000);
}

#[test]
fn dummy_never_allocates() {
    assert_eq!(Dummy.allocate(0, 1), None);
    assert_eq!(Dummy.allocate(8, 8), None);
}
