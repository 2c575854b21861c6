use blog_os::allocator::fixed_size_block::FixedSizeBlockAllocator;
use blog_os::allocator::heap_init::{
    heap_page_range, HeapInit, InitAction, InitEvent, MapToError, PageRange, Phase, PAGE_SIZE,
};
use blog_os::allocator::{HEAP_SIZE, HEAP_START};

/// Feeds the machine from a frame source with `frames` frames and a mapper
/// that never refuses; returns the last action and the pages mapped.
fn drive(init: &mut HeapInit, frames: u64) -> (InitAction, Vec<(u64, u64)>) {
    let mut left = frames;
    let mut mapped: Vec<(u64, u64)> = Vec::new();
    let mut action = init.pending();
    loop {
        let event = match action {
            InitAction::AllocateFrame { .. } => {
                if left == 0 {
                    InitEvent::FrameExhausted
                } else {
                    left -= 1;
                    InitEvent::FrameAllocated(0x10_0000 + (frames - left) * PAGE_SIZE)
                }
            }
            InitAction::MapPage { page, frame } => {
                mapped.push((page, frame));
                InitEvent::PageMapped
            }
            InitAction::BindRegion { .. } => InitEvent::RegionBound,
            InitAction::Done | InitAction::Fail(_) => return (action, mapped),
        };
        action = init.advance(event);
    }
}

#[test]
fn page_range_of_configured_heap() {
    let range = heap_page_range(HEAP_START, HEAP_SIZE);
    assert_eq!(
        range,
        PageRange { first: 0x4444_4444_0000, last: 0x4444_4444_0000 + 24 * 4096 }
    );
}

#[test]
fn page_range_rounds_down_to_page_starts() {
    assert_eq!(heap_page_range(0x1001, 4096), PageRange { first: 0x1000, last: 0x2000 });
    assert_eq!(heap_page_range(0x1fff, 1), PageRange { first: 0x1000, last: 0x1000 });
    assert_eq!(heap_page_range(0x1fff, 2), PageRange { first: 0x1000, last: 0x2000 });
    assert_eq!(heap_page_range(0, 4096), PageRange { first: 0, last: 0 });
    assert_eq!(heap_page_range(0, 4097), PageRange { first: 0, last: 0x1000 });
}

#[test]
fn page_range_in_upper_half() {
    let start = 0xffff_8000_0000_0800u64;
    assert_eq!(
        heap_page_range(start, 0x2000),
        PageRange { first: 0xffff_8000_0000_0000, last: 0xffff_8000_0000_2000 }
    );
}

#[test]
fn heap_init_starts_by_asking_for_a_frame() {
    let init = HeapInit::new(HEAP_START, HEAP_SIZE);
    assert_eq!(init.page_count, 25);
    assert_eq!(init.mapped, 0);
    assert_eq!(init.first_page, HEAP_START);
    assert_eq!(init.phase, Phase::AwaitFrame);
    assert_eq!(init.pending(), InitAction::AllocateFrame { page: HEAP_START });
}

#[test]
fn heap_init_maps_every_page_in_ascending_order() {
    let mut init = HeapInit::new(HEAP_START, HEAP_SIZE);
    let (action, mapped) = drive(&mut init, 25);
    assert_eq!(action, InitAction::Done);
    assert_eq!(init.phase, Phase::Ready);
    assert_eq!(mapped.len(), 25);
    for (number, (page, frame)) in mapped.iter().enumerate() {
        assert_eq!(*page, HEAP_START + number as u64 * PAGE_SIZE);
        assert_eq!(*frame, 0x10_0000 + (number as u64 + 1) * PAGE_SIZE);
    }
}

#[test]
fn heap_init_binds_after_last_page() {
    let mut init = HeapInit::new(0x1000, 2 * 4096);
    assert_eq!(init.advance(InitEvent::FrameAllocated(0x5000)), InitAction::MapPage {
        page: 0x1000,
        frame: 0x5000
    });
    assert_eq!(init.advance(InitEvent::PageMapped), InitAction::AllocateFrame { page: 0x2000 });
    assert_eq!(init.advance(InitEvent::FrameAllocated(0x9000)), InitAction::MapPage {
        page: 0x2000,
        frame: 0x9000
    });
    assert_eq!(init.advance(InitEvent::PageMapped), InitAction::BindRegion {
        heap_start: 0x1000,
        heap_size: 2 * 4096
    });
    assert_eq!(init.advance(InitEvent::RegionBound), InitAction::Done);
    assert_eq!(init.advance(InitEvent::FrameExhausted), InitAction::Done);
}

#[test]
fn heap_init_fails_with_too_few_frames() {
    for frames in [0u64, 1, 10, 24] {
        let mut init = HeapInit::new(HEAP_START, HEAP_SIZE);
        let (action, mapped) = drive(&mut init, frames);
        assert_eq!(action, InitAction::Fail(MapToError::FrameAllocationFailed));
        assert_eq!(init.phase, Phase::Failed(MapToError::FrameAllocationFailed));
        assert_eq!(mapped.len() as u64, frames);
        assert_eq!(init.mapped, frames);
        assert_eq!(
            init.advance(InitEvent::RegionBound),
            InitAction::Fail(MapToError::FrameAllocationFailed)
        );
        assert_eq!(
            init.advance(InitEvent::FrameAllocated(0x7000)),
            InitAction::Fail(MapToError::FrameAllocationFailed)
        );
    }
    let allocator = FixedSizeBlockAllocator::new();
    assert!(!allocator.is_initialized());
}

#[test]
fn frames_decide_outcome() {
    for frames in 0u64..30 {
        let mut init = HeapInit::new(HEAP_START, HEAP_SIZE);
        let (action, mapped) = drive(&mut init, frames);
        if frames < 25 {
            assert_eq!(action, InitAction::Fail(MapToError::FrameAllocationFailed));
            assert_eq!(mapped.len() as u64, frames);
        } else {
            assert_eq!(action, InitAction::Done);
            assert_eq!(mapped.len(), 25);
        }
    }
}

#[test]
fn heap_init_propagates_mapper_refusal() {
    let mut init = HeapInit::new(0x1000, 3 * 4096);
    init.advance(InitEvent::FrameAllocated(0x5000));
    assert_eq!(init.advance(InitEvent::PageMapped), InitAction::AllocateFrame { page: 0x2000 });
    init.advance(InitEvent::FrameAllocated(0x6000));
    assert_eq!(
        init.advance(InitEvent::MapFailed(MapToError::PageAlreadyMapped)),
        InitAction::Fail(MapToError::PageAlreadyMapped)
    );
    assert_eq!(init.mapped, 1);
    assert_eq!(init.advance(InitEvent::PageMapped), InitAction::Fail(MapToError::PageAlreadyMapped));

    let mut huge = HeapInit::new(0x1000, 4096);
    huge.advance(InitEvent::FrameAllocated(0x5000));
    assert_eq!(
        huge.advance(InitEvent::MapFailed(MapToError::ParentEntryHugePage)),
        InitAction::Fail(MapToError::ParentEntryHugePage)
    );
}

#[test]
fn heap_init_ignores_events_it_does_not_wait_for() {
    let mut init = HeapInit::new(0x1000, 4096);
    let before = init;
    assert_eq!(init.advance(InitEvent::PageMapped), InitAction::AllocateFrame { page: 0x1000 });
    assert_eq!(init.advance(InitEvent::RegionBound), InitAction::AllocateFrame { page: 0x1000 });
    assert_eq!(init, before);
    init.advance(InitEvent::FrameAllocated(0x3000));
    assert_eq!(init.advance(InitEvent::FrameExhausted), InitAction::MapPage {
        page: 0x1000,
        frame: 0x3000
    });
}
