use userspace::heap::{prev_power_of_two, size_class, Heap};
use userspace::rescue::{rescue, rescue_plan, RescuePlan};

#[test]
fn empty_heap_refuses_every_request() {
    let mut heap = Heap::new();
    assert_eq!(heap.allocate(8, 8), Err(()));
    assert_eq!(heap.stats_alloc_user(), 0);
    assert_eq!(heap.stats_alloc_actual(), 0);
    assert_eq!(heap.stats_total_bytes(), 0);
    let mut e = Heap::empty();
    assert_eq!(e.allocate(1, 1), Err(()));
}

#[test]
fn init_adds_one_aligned_block() {
    let mut heap = Heap::new();
    heap.init(0x1000, 0x1000);
    assert_eq!(heap.stats_total_bytes(), 0x1000);
    // The whole block can be handed out in one piece.
    assert_eq!(heap.allocate(0x1000, 8), Ok(0x1000));
    assert_eq!(heap.stats_alloc_user(), 0x1000);
    assert_eq!(heap.stats_alloc_actual(), 0x1000);
    assert_eq!(heap.allocate(8, 8), Err(()));
}

#[test]
fn small_request_splits_the_block() {
    let mut heap = Heap::new();
    heap.init(0x1000, 0x1000);
    assert_eq!(heap.allocate(8, 8), Ok(0x1000));
    // The upper halves went back: the 16-byte one is next for a 16-byte request.
    assert_eq!(heap.allocate(16, 8), Ok(0x1010));
    assert_eq!(heap.allocate(8, 8), Ok(0x1008));
    assert_eq!(heap.stats_alloc_user(), 32);
    assert_eq!(heap.stats_alloc_actual(), 32);
}

#[test]
fn request_is_rounded_up_to_a_power_of_two() {
    let mut heap = Heap::new();
    heap.init(0x1000, 0x1000);
    assert_eq!(heap.allocate(20, 4), Ok(0x1000));
    assert_eq!(heap.stats_alloc_user(), 20);
    assert_eq!(heap.stats_alloc_actual(), 32);
}

#[test]
fn alignment_raises_the_class() {
    let mut heap = Heap::new();
    heap.init(0x1000, 0x1000);
    assert_eq!(heap.allocate(8, 64), Ok(0x1000));
    assert_eq!(heap.stats_alloc_actual(), 64);
    // The next 64-byte block is the buddy at 0x1040.
    assert_eq!(heap.allocate(64, 64), Ok(0x1040));
}

#[test]
fn dealloc_undoes_allocate() {
    let mut heap = Heap::new();
    heap.init(0x1000, 0x1000);
    let p = heap.allocate(8, 8).unwrap();
    heap.dealloc(p, 8, 8);
    assert_eq!(heap.stats_alloc_user(), 0);
    assert_eq!(heap.stats_alloc_actual(), 0);
    // Buddies merged all the way back: the whole block is free again.
    assert_eq!(heap.allocate(0x1000, 8), Ok(0x1000));
}

#[test]
fn dealloc_merges_only_free_buddies() {
    let mut heap = Heap::new();
    heap.init(0x1000, 0x1000);
    let a = heap.allocate(8, 8).unwrap();
    let b = heap.allocate(8, 8).unwrap();
    assert_eq!((a, b), (0x1000, 0x1008));
    heap.dealloc(a, 8, 8);
    // b is still held, so no 16-byte block at 0x1000 exists.
    assert_eq!(heap.allocate(16, 16), Ok(0x1010));
    heap.dealloc(b, 8, 8);
    assert_eq!(heap.allocate(16, 16), Ok(0x1000));
}

#[test]
fn add_to_heap_trims_to_words_and_cuts_aligned_blocks() {
    let mut heap = Heap::new();
    heap.add_to_heap(0x1003, 0x1020);
    // [0x1008, 0x1020): an 8-byte block at 0x1008, a 16-byte block at 0x1010.
    assert_eq!(heap.stats_total_bytes(), 0x18);
    assert_eq!(heap.allocate(16, 16), Ok(0x1010));
    assert_eq!(heap.allocate(8, 8), Ok(0x1008));
    assert_eq!(heap.allocate(8, 8), Err(()));
}

#[test]
fn add_to_heap_rescue_adds_one_block() {
    let mut heap = Heap::new();
    heap.add_to_heap_rescue(0x2000, 0x2040);
    assert_eq!(heap.stats_total_bytes(), 0x40);
    assert_eq!(heap.allocate(64, 8), Ok(0x2000));
}

#[test]
fn size_class_is_the_smallest_power_fitting_size_align_and_word() {
    assert_eq!(size_class(1, 1), 3);
    assert_eq!(size_class(8, 8), 3);
    assert_eq!(size_class(9, 1), 4);
    assert_eq!(size_class(16, 64), 6);
    assert_eq!(size_class(4096, 8), 12);
}

#[test]
fn rescue_plan_aligns_the_block() {
    let p = rescue_plan(0x2000, 64, 8);
    assert_eq!(p, RescuePlan { start: 0x2000, new_brk: 0x2040 });
    let q = rescue_plan(0x1003, 16, 8);
    assert_eq!(q, RescuePlan { start: 0x1010, new_brk: 0x1020 });
}

#[test]
fn rescued_block_serves_the_retry() {
    let mut heap = Heap::new();
    assert_eq!(heap.allocate(16, 8), Err(()));
    let plan = rescue_plan(0x1003, 16, 8);
    rescue(&mut heap, 0x1003, plan.start, plan.new_brk);
    assert_eq!(heap.stats_total_bytes(), 24);
    assert_eq!(heap.allocate(16, 8), Ok(0x1010));
    // The gap below the block was added too.
    assert_eq!(heap.allocate(8, 8), Ok(0x1008));
}

#[test]
fn rescue_at_an_aligned_break_adds_only_the_block() {
    let mut heap = Heap::new();
    let plan = rescue_plan(0x4000, 100, 8);
    assert_eq!(plan, RescuePlan { start: 0x4000, new_brk: 0x4080 });
    rescue(&mut heap, 0x4000, plan.start, plan.new_brk);
    assert_eq!(heap.stats_total_bytes(), 128);
    assert_eq!(heap.allocate(100, 8), Ok(0x4000));
    assert_eq!(heap.stats_alloc_user(), 100);
    assert_eq!(heap.stats_alloc_actual(), 128);
}

#[test]
fn previous_power_of_two() {
    assert_eq!(prev_power_of_two(1), 1);
    assert_eq!(prev_power_of_two(2), 2);
    assert_eq!(prev_power_of_two(3), 2);
    assert_eq!(prev_power_of_two(1000), 512);
    assert_eq!(prev_power_of_two(usize::MAX), 1usize << (usize::BITS - 1));
}

#[test]
fn retry_after_dealloc_is_served_again() {
    let mut heap = Heap::new();
    heap.init(0x2000, 0x100);
    let first = heap.allocate(24, 8).unwrap();
    let user = heap.stats_alloc_user();
    let actual = heap.stats_alloc_actual();
    assert_eq!((user, actual), (24, 32));
    heap.dealloc(first, 24, 8);
    assert_eq!(heap.stats_alloc_user(), 0);
    assert_eq!(heap.stats_alloc_actual(), 0);
    assert_eq!(heap.stats_total_bytes(), 0x100);
    assert_eq!(heap.allocate(24, 8), Ok(first));
    assert_eq!(heap.stats_alloc_user(), user);
    assert_eq!(heap.stats_alloc_actual(), actual);
}

#[test]
fn requested_bytes_never_exceed_allocated_bytes() {
    let mut heap = Heap::new();
    heap.init(0x4000, 0x400);
    let a = heap.allocate(3, 1).unwrap();
    let b = heap.allocate(100, 8).unwrap();
    let c = heap.allocate(17, 16).unwrap();
    assert!(heap.stats_alloc_user() <= heap.stats_alloc_actual());
    assert_eq!(heap.stats_alloc_user(), 120);
    assert_eq!(heap.stats_alloc_actual(), 8 + 128 + 32);
    heap.dealloc(b, 100, 8);
    assert_eq!(heap.stats_alloc_user(), 20);
    assert_eq!(heap.stats_alloc_actual(), 40);
    heap.dealloc(a, 3, 1);
    heap.dealloc(c, 17, 16);
    assert_eq!(heap.stats_alloc_user(), 0);
    assert_eq!(heap.stats_alloc_actual(), 0);
    assert!(heap.stats_alloc_actual() <= heap.stats_total_bytes());
}

#[test]
fn merging_past_the_last_class_is_detected() {
    let mut heap = Heap::new();
    let b: usize = (1 << 32) + (1 << 31);
    heap.add_to_heap_rescue(b, b + (1 << 31));
    assert!(heap.dealloc_overflows(1 << 32, 1 << 31, 8));
    assert!(!heap.dealloc_overflows(1 << 33, 1 << 31, 8));
    assert!(!heap.dealloc_overflows(0x1000, 8, 8));
}
