use cloudos::allocator::bump::BumpAllocator;
use cloudos::allocator::{
    init_heap, HeapInit, HeapInitAction, HeapInitEvent, MapToError, Mapping, HEAP_PAGE_FLAGS,
    HEAP_SIZE, HEAP_START, PAGE_PRESENT, PAGE_WRITABLE,
};
use cloudos::memory::{BootInfoFrameAllocator, MemoryRegion};

fn usable(start: u64, end: u64) -> [MemoryRegion; 1] {
    [MemoryRegion { start, end, usable: true }]
}

#[test]
fn heap_constants() {
    assert_eq!(HEAP_START, 0x4444_4444_0000);
    assert_eq!(HEAP_SIZE, 102_400);
    assert_eq!(PAGE_PRESENT, 1);
    assert_eq!(PAGE_WRITABLE, 2);
    assert_eq!(HEAP_PAGE_FLAGS, 3);
}

#[test]
fn heap_init_succeeds_and_the_first_allocation_is_the_heap_base() {
    let map = usable(0x10_0000, 0x20_0000);
    let mut frame_allocator = BootInfoFrameAllocator::init(&map);
    let mut progress = HeapInit::new();
    let mut event = HeapInitEvent::Start;
    let mut mapped: Vec<Mapping> = Vec::new();
    let (heap_start, heap_size) = loop {
        match init_heap(&mut progress, event, &mut frame_allocator) {
            HeapInitAction::MapPage(mapping) => {
                mapped.push(mapping);
                event = HeapInitEvent::Mapped;
            }
            HeapInitAction::Ready { heap_start, heap_size } => break (heap_start, heap_size),
            HeapInitAction::Abort(error) => panic!("heap init failed: {:?}", error),
        }
    };
    assert_eq!(heap_start, 0x4444_4444_0000);
    assert_eq!(heap_size, 100 * 1024);
    assert_eq!(mapped.len(), 25);
    for (k, mapping) in mapped.iter().enumerate() {
        assert_eq!(mapping.page, 0x4444_4444_0000 + 4096 * k as u64);
        assert_eq!(mapping.frame, 0x10_0000 + 4096 * k as u64);
        assert_eq!(mapping.flags, 3);
    }
    assert_eq!(frame_allocator.allocate_frame(), Some(0x10_0000 + 4096 * 25));

    let mut bump = BumpAllocator::new();
    bump.init(heap_start as usize, heap_size);
    assert_eq!(bump.allocate(8, 8), Some(0x4444_4444_0000));
}

#[test]
fn heap_init_fails_without_enough_frames() {
    let map = usable(0x10_0000, 0x10_3000);
    let mut frame_allocator = BootInfoFrameAllocator::init(&map);
    let mut progress = HeapInit::new();
    let mut event = HeapInitEvent::Start;
    let mut mapped: usize = 0;
    let error = loop {
        match init_heap(&mut progress, event, &mut frame_allocator) {
            HeapInitAction::MapPage(_) => {
                mapped += 1;
                event = HeapInitEvent::Mapped;
            }
            HeapInitAction::Ready { .. } => panic!("the heap cannot be ready"),
            HeapInitAction::Abort(error) => break error,
        }
    };
    assert_eq!(mapped, 3);
    assert_eq!(error, MapToError::FrameAllocationFailed);
}

#[test]
fn a_failed_mapping_ends_the_set_up_with_its_error() {
    let map = usable(0x10_0000, 0x20_0000);
    let mut frame_allocator = BootInfoFrameAllocator::init(&map);
    let mut progress = HeapInit::new();
    let first = init_heap(&mut progress, HeapInitEvent::Start, &mut frame_allocator);
    assert_eq!(
        first,
        HeapInitAction::MapPage(Mapping { page: 0x4444_4444_0000, frame: 0x10_0000, flags: 3 })
    );
    let failed = HeapInitEvent::MapFailed(MapToError::PageAlreadyMapped(0x7000));
    assert_eq!(
        init_heap(&mut progress, failed, &mut frame_allocator),
        HeapInitAction::Abort(MapToError::PageAlreadyMapped(0x7000))
    );
    assert_eq!(
        init_heap(
            &mut progress,
            HeapInitEvent::MapFailed(MapToError::ParentEntryHugePage),
            &mut frame_allocator
        ),
        HeapInitAction::Abort(MapToError::ParentEntryHugePage)
    );
    assert_eq!(frame_allocator.allocate_frame(), Some(0x10_1000));
}

#[test]
fn frames_taken_by_the_mapper_are_skipped() {
    let map = usable(0x10_0000, 0x20_0000);
    let mut frame_allocator = BootInfoFrameAllocator::init(&map);
    let mut progress = HeapInit::new();
    let first = init_heap(&mut progress, HeapInitEvent::Start, &mut frame_allocator);
    assert_eq!(
        first,
        HeapInitAction::MapPage(Mapping { page: 0x4444_4444_0000, frame: 0x10_0000, flags: 3 })
    );
    for _ in 0..3 {
        frame_allocator.allocate_frame().unwrap();
    }
    assert_eq!(
        init_heap(&mut progress, HeapInitEvent::Mapped, &mut frame_allocator),
        HeapInitAction::MapPage(Mapping { page: 0x4444_4444_1000, frame: 0x10_4000, flags: 3 })
    );
}

#[test]
fn start_begins_again_at_the_first_page() {
    let map = usable(0x10_0000, 0x20_0000);
    let mut frame_allocator = BootInfoFrameAllocator::init(&map);
    let mut progress = HeapInit::new();
    init_heap(&mut progress, HeapInitEvent::Start, &mut frame_allocator);
    init_heap(&mut progress, HeapInitEvent::Mapped, &mut frame_allocator);
    assert_eq!(
        init_heap(&mut progress, HeapInitEvent::Start, &mut frame_allocator),
        HeapInitAction::MapPage(Mapping { page: 0x4444_4444_0000, frame: 0x10_2000, flags: 3 })
    );
}
