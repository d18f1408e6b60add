use kernel_core::memory::{
    BumpAllocator, Frame, MemoryArea, PartialAllocStrategy, PHYSALLOC_PARTIAL_ALLOC,
    PHYSALLOC_SPACE_32,
};
use kernel_core::paging::PAGE_SIZE;

fn one_area(base: usize, frames: usize) -> Vec<MemoryArea> {
    vec![MemoryArea { base_addr: base, length: frames * PAGE_SIZE }]
}

// A 16-frame area at physical zero; the kernel image kept far away, in a
// second area of its own.
fn small_allocator() -> BumpAllocator {
    let areas = vec![MemoryArea { base_addr: 0, length: 16 * PAGE_SIZE }];
    BumpAllocator::new(64 * PAGE_SIZE, 65 * PAGE_SIZE - 1, areas)
}

#[test]
fn space32_allocation_from_low_area_returns_first_frames() {
    let mut allocator = small_allocator();
    let (frame, actual) = allocator
        .allocate_frames3(4, PHYSALLOC_SPACE_32, None, 4)
        .expect("a low area must satisfy a capped request");
    assert_eq!(frame, Frame { number: 0 });
    assert_eq!(actual, 4);
    // The cursor advanced to frame 4: the next run starts there.
    let (next, _) = allocator.allocate_frames3(1, 0, None, 1).unwrap();
    assert_eq!(next, Frame { number: 4 });
}

#[test]
fn successive_allocations_never_overlap() {
    let mut allocator = small_allocator();
    let (first, n1) = allocator.allocate_frames3(3, 0, None, 3).unwrap();
    allocator.deallocate_frames(Frame { number: 99 }, 1);
    let (second, n2) = allocator.allocate_frames3(5, 0, None, 5).unwrap();
    assert!(first.number + n1 <= second.number);
    assert_eq!(n1, 3);
    assert_eq!(n2, 5);
}

#[test]
fn allocation_skips_the_kernel_image() {
    // Kernel occupies frames 2 and 3 of a 16-frame area.
    let areas = one_area(0, 16);
    let mut allocator = BumpAllocator::new(2 * PAGE_SIZE, 4 * PAGE_SIZE - 1, areas);
    let (frame, actual) = allocator.allocate_frames3(4, 0, None, 4).unwrap();
    // The run 0..=3 would overlap the kernel, so the cursor jumped past it.
    assert_eq!(frame, Frame { number: 4 });
    assert_eq!(actual, 4);
}

#[test]
fn space32_request_fails_above_4gib_without_skipping() {
    let areas = one_area(0x1_0000_0000, 16);
    let mut allocator = BumpAllocator::new(0, PAGE_SIZE - 1, areas);
    assert!(allocator.allocate_frames3(1, PHYSALLOC_SPACE_32, None, 1).is_none());
    // The failed capped request did not consume the region: an uncapped
    // request still gets its first frame.
    let (frame, _) = allocator.allocate_frames3(1, 0, None, 1).unwrap();
    assert_eq!(frame, Frame { number: 0x1_0000_0000 / PAGE_SIZE });
}

#[test]
fn space32_success_ends_below_4gib() {
    let first = 0x1_0000_0000 / PAGE_SIZE - 8;
    let areas = one_area(first * PAGE_SIZE, 8);
    let mut allocator = BumpAllocator::new(0, PAGE_SIZE - 1, areas);
    // Seven frames end strictly below the boundary and are granted.
    let (frame, actual) = allocator.allocate_frames3(7, PHYSALLOC_SPACE_32, None, 7).unwrap();
    assert_eq!(frame, Frame { number: first });
    assert_eq!(actual, 7);
    assert!((frame.number + actual) * PAGE_SIZE < 0x1_0000_0000);
    // A run whose last frame touches the boundary is refused.
    let areas2 = one_area(first * PAGE_SIZE, 8);
    let mut allocator2 = BumpAllocator::new(0, PAGE_SIZE - 1, areas2);
    assert!(allocator2.allocate_frames3(8, PHYSALLOC_SPACE_32, None, 8).is_none());
}

#[test]
fn partial_allocation_returns_between_min_and_count() {
    let areas = one_area(0, 6);
    let mut allocator = BumpAllocator::new(64 * PAGE_SIZE, 65 * PAGE_SIZE - 1, areas);
    let (frame, actual) = allocator
        .allocate_frames3(
            10,
            PHYSALLOC_PARTIAL_ALLOC,
            Some(PartialAllocStrategy::Optimal),
            4,
        )
        .expect("six frames satisfy a minimum of four");
    assert_eq!(frame, Frame { number: 0 });
    assert!(4 <= actual && actual <= 10);
    assert_eq!(actual, 6);
}

#[test]
fn partial_allocation_below_min_fails() {
    let areas = one_area(0, 3);
    let mut allocator = BumpAllocator::new(64 * PAGE_SIZE, 65 * PAGE_SIZE - 1, areas);
    let r = allocator.allocate_frames3(
        10,
        PHYSALLOC_PARTIAL_ALLOC,
        Some(PartialAllocStrategy::GreatestRange),
        4,
    );
    assert!(r.is_none());
}

#[test]
fn allocation_advances_across_areas() {
    let areas = vec![
        MemoryArea { base_addr: 0, length: 2 * PAGE_SIZE },
        MemoryArea { base_addr: 8 * PAGE_SIZE, length: 8 * PAGE_SIZE },
    ];
    let mut allocator = BumpAllocator::new(64 * PAGE_SIZE, 65 * PAGE_SIZE - 1, areas);
    // Four frames do not fit in the two-frame area: its remainder is
    // skipped and the run comes from the next area.
    let (frame, actual) = allocator.allocate_frames3(4, 0, None, 4).unwrap();
    assert_eq!(frame, Frame { number: 8 });
    assert_eq!(actual, 4);
}

#[test]
fn exhausted_allocator_returns_none() {
    let mut allocator = small_allocator();
    assert!(allocator.allocate_frames3(16, 0, None, 16).is_some());
    assert!(allocator.allocate_frames3(1, 0, None, 1).is_none());
}

#[test]
fn zero_count_returns_none() {
    let mut allocator = small_allocator();
    assert!(allocator.allocate_frames3(0, 0, None, 0).is_none());
}

#[test]
fn free_and_used_frames_track_the_cursor_and_kernel() {
    let areas = one_area(0, 16);
    let mut allocator = BumpAllocator::new(2 * PAGE_SIZE, 4 * PAGE_SIZE - 1, areas);
    assert_eq!(allocator.free_frames(), 14);
    assert_eq!(allocator.used_frames(), 2);
    let (frame, actual) = allocator.allocate_frames3(4, 0, None, 4).unwrap();
    assert_eq!((frame.number, actual), (4, 4));
    assert_eq!(allocator.free_frames(), 8);
    assert_eq!(allocator.used_frames(), 8);
}

#[test]
fn frame_addresses_round_trip() {
    let frame = Frame::containing_address(kernel_core::paging::PhysicalAddress::new(5 * PAGE_SIZE + 123));
    assert_eq!(frame, Frame { number: 5 });
    assert_eq!(frame.start_address().get(), 5 * PAGE_SIZE);
}

#[test]
fn plain_allocate_frames_takes_the_next_run() {
    let mut allocator = small_allocator();
    let first = allocator.allocate_frames(2).unwrap();
    let second = allocator.allocate_frames(1).unwrap();
    assert_eq!(first, Frame { number: 0 });
    assert_eq!(second, Frame { number: 2 });
    assert!(allocator.allocate_frames(100).is_none());
}

#[test]
fn allocate_frames_complex_matches_the_full_entry_point() {
    let mut allocator = small_allocator();
    let (frame, actual) = allocator
        .allocate_frames_complex(3, PHYSALLOC_SPACE_32, None, 3)
        .unwrap();
    assert_eq!(frame, Frame { number: 0 });
    assert_eq!(actual, 3);
}

// Free plus used always equals the total frame count of the areas, as the
// exported partition lemma states.
#[test]
fn free_plus_used_is_the_total_frame_count() {
    let areas = vec![
        MemoryArea { base_addr: 0, length: 16 * PAGE_SIZE },
        MemoryArea { base_addr: 32 * PAGE_SIZE, length: 8 * PAGE_SIZE },
    ];
    let mut allocator = BumpAllocator::new(2 * PAGE_SIZE, 4 * PAGE_SIZE - 1, areas);
    assert_eq!(allocator.free_frames() + allocator.used_frames(), 24);
    allocator.allocate_frames(5).unwrap();
    assert_eq!(allocator.free_frames() + allocator.used_frames(), 24);
    allocator.allocate_frames(100);
    assert_eq!(allocator.free_frames() + allocator.used_frames(), 24);
}
