use lab_allocator::allocator::{AllocError, LabByteAllocator};
use lab_allocator::layout::{checked_align_up, routes_to_segment_a, SEGMENT_A_SIZE};

const START: usize = 0x1000;
const SIZE: usize = 0x200000;

/// Initialised, probe refused, heap grown: ready for real requests.
fn ready() -> LabByteAllocator {
    let mut a = LabByteAllocator::new();
    a.init(START, SIZE);
    assert_eq!(a.allocate(32, 1), Err(AllocError::OutOfMemory));
    a.add_memory(START, SIZE);
    a
}

#[test]
fn probe_then_record_in_segment_a() {
    let mut a = LabByteAllocator::new();
    a.init(0x1000, 0x200000);
    assert_eq!(a.allocate(32, 1), Err(AllocError::OutOfMemory));
    assert!(a.probe_issued());
    a.add_memory(0x1000, 0x200000);
    assert_eq!(a.segment_b_cursor(), 0x1000 + SEGMENT_A_SIZE);
    assert_eq!(a.allocate(384, 8), Ok(0x1000));
    assert_eq!(a.segment_a_live(), 1);
    assert_eq!(a.segment_a_cursor(), 0x1000 + 384);
}

#[test]
fn freeing_last_record_resets_segment_a() {
    let mut a = ready();
    let addr = a.allocate(384, 8).unwrap();
    assert!(a.may_free(384, 8));
    a.deallocate(addr, 384, 8);
    assert_eq!(a.segment_a_live(), 0);
    assert_eq!(a.segment_a_cursor(), 0x1000);
}

#[test]
fn byte_requests_alternate_segments() {
    let mut a = ready();
    let b_base = START + SEGMENT_A_SIZE;
    for i in 0..15usize {
        assert_eq!(a.cycle_counter(), i);
        let addr = a.allocate(1, 1).unwrap();
        if i % 2 == 0 {
            assert_eq!(addr, START + i / 2);
        } else {
            assert_eq!(addr, b_base + i / 2);
        }
    }
    assert_eq!(a.segment_a_live(), 8);
    assert_eq!(a.segment_b_live(), 7);
    assert_eq!(a.cycle_counter(), 0);
}

#[test]
fn probe_is_not_repeated_after_grow() {
    let mut a = ready();
    assert_eq!(a.allocate(32, 1), Ok(START));
    assert_eq!(a.cycle_counter(), 1);
    assert!(a.probe_issued());
}

#[test]
fn probe_waits_for_cycle_position_zero() {
    let mut a = LabByteAllocator::new();
    a.init(START, SIZE);
    a.add_memory(START, SIZE);
    assert_eq!(a.allocate(384, 8), Ok(START));
    assert!(!a.probe_issued());
    assert_eq!(a.allocate(32, 1), Err(AllocError::OutOfMemory));
    assert!(a.probe_issued());
    assert_eq!(a.allocate(32, 1), Ok(START + 384));
}

#[test]
fn balanced_workload_reclaims_both_segments() {
    let mut a = ready();
    let r1 = a.allocate(384, 8).unwrap();
    let r2 = a.allocate(96, 8).unwrap();
    let r3 = a.allocate(100, 4).unwrap();
    let r4 = a.allocate(192, 8).unwrap();
    assert_eq!(r3, START + SEGMENT_A_SIZE);
    assert_eq!(a.segment_a_live(), 3);
    assert_eq!(a.segment_b_live(), 1);
    a.deallocate(r3, 100, 4);
    a.deallocate(r1, 384, 8);
    assert_eq!(a.segment_b_live(), 0);
    assert_eq!(a.segment_b_cursor(), START + SEGMENT_A_SIZE);
    assert_eq!(a.segment_a_live(), 2);
    assert_eq!(a.segment_a_cursor(), START + 384 + 96 + 192);
    a.deallocate(r2, 96, 8);
    a.deallocate(r4, 192, 8);
    assert_eq!(a.segment_a_live(), 0);
    assert_eq!(a.segment_b_live(), 0);
    assert_eq!(a.segment_a_cursor(), START);
    assert_eq!(a.segment_b_cursor(), START + SEGMENT_A_SIZE);
}

#[test]
fn byte_free_is_classified_by_current_counter() {
    let mut a = ready();
    assert_eq!(a.allocate(1, 1), Ok(START));
    assert_eq!(a.segment_a_live(), 1);
    // The counter has moved to an odd position: this free would credit segment B,
    // which holds nothing.
    assert!(!a.may_free(1, 1));
    assert!(a.may_free(384, 8));
}

#[test]
fn addresses_stay_inside_the_heap() {
    let mut a = ready();
    let end = START + SIZE;
    let layouts = [(384usize, 8usize), (1, 1), (500, 16), (3, 1), (192, 8), (4096, 4096), (2, 1)];
    for &(size, align) in layouts.iter() {
        let addr = a.allocate(size, align).unwrap();
        assert!(addr >= START && addr + size <= end);
        assert_eq!(addr % align, 0);
    }
}

#[test]
fn record_is_aligned_up() {
    let mut a = ready();
    assert_eq!(a.allocate(1, 1), Ok(START));
    assert_eq!(a.allocate(384, 8), Ok(START + 8));
    assert_eq!(a.segment_a_cursor(), START + 8 + 384);
}

#[test]
fn oversized_segment_a_request_is_fatal() {
    let a = ready();
    assert!(!a.may_allocate(SEGMENT_A_SIZE + 1, 1));
    assert!(a.may_allocate(SEGMENT_A_SIZE, 1));
    assert!(a.may_allocate(SEGMENT_A_SIZE + 1, 8));
}

#[test]
fn request_past_heap_end_is_out_of_memory() {
    let mut a = ready();
    assert_eq!(a.allocate(SIZE, 8), Err(AllocError::OutOfMemory));
    assert_eq!(a.segment_b_live(), 0);
    assert_eq!(a.allocate(usize::MAX, 8), Err(AllocError::OutOfMemory));
    assert_eq!(a.allocate(SIZE - SEGMENT_A_SIZE, 4), Ok(START + SEGMENT_A_SIZE));
    assert_eq!(a.total_bytes(), 0);
}

#[test]
fn cycle_counter_counts_byte_allocations() {
    let mut a = ready();
    for _ in 0..20 {
        a.allocate(2, 1).unwrap();
        a.allocate(192, 8).unwrap();
    }
    assert_eq!(a.cycle_counter(), 20 % 15);
    assert_eq!(a.allocate(SIZE, 1), Err(AllocError::OutOfMemory));
    assert_eq!(a.cycle_counter(), 5);
}

#[test]
fn capacity_report() {
    let mut a = LabByteAllocator::new();
    a.init(START, SIZE);
    assert!(a.capacity_defined());
    assert_eq!(a.total_bytes(), SEGMENT_A_SIZE);
    assert_eq!(a.allocate(32, 1), Err(AllocError::OutOfMemory));
    a.add_memory(START, SIZE);
    assert_eq!(a.total_bytes(), SEGMENT_A_SIZE);
    // Segment B's base is 4 bytes short of a multiple of 8.
    assert_eq!(a.allocate(100, 8), Ok(START + SEGMENT_A_SIZE + 4));
    assert_eq!(a.total_bytes(), SIZE - SEGMENT_A_SIZE - 4 - 100);
}

#[test]
fn usage_queries_are_unsupported() {
    let a = LabByteAllocator::default();
    assert_eq!(a.used_bytes(), Err(AllocError::Unsupported));
    assert_eq!(a.available_bytes(), Err(AllocError::Unsupported));
}

#[test]
fn new_allocator_is_empty() {
    let a = LabByteAllocator::new();
    assert_eq!(a.heap_start(), 0);
    assert_eq!(a.heap_end(), 0);
    assert_eq!(a.segment_a_live(), 0);
    assert_eq!(a.segment_b_live(), 0);
    assert_eq!(a.cycle_counter(), 0);
    assert!(!a.probe_issued());
}

#[test]
fn init_and_grow_set_bounds() {
    let mut a = LabByteAllocator::new();
    a.init(0x8000, 0x100);
    assert_eq!(a.heap_start(), 0x8000);
    assert_eq!(a.heap_end(), 0x8100);
    assert_eq!(a.segment_a_cursor(), 0x8000);
    a.add_memory(0x8000, 0x400000);
    assert_eq!(a.heap_end(), 0x408000);
    assert_eq!(a.segment_b_cursor(), 0x8000 + SEGMENT_A_SIZE);
}

#[test]
fn classifier_routes() {
    assert!(routes_to_segment_a(3, 384, 8));
    assert!(routes_to_segment_a(5, 96, 8));
    assert!(!routes_to_segment_a(0, 96, 16));
    assert!(!routes_to_segment_a(0, 100, 8));
    assert!(routes_to_segment_a(4, 100, 1));
    assert!(!routes_to_segment_a(7, 100, 1));
}

#[test]
fn align_up_values() {
    assert_eq!(checked_align_up(0x1001, 8), Some(0x1008));
    assert_eq!(checked_align_up(0x1000, 8), Some(0x1000));
    assert_eq!(checked_align_up(usize::MAX, 2), None);
}

#[test]
fn segment_b_is_unusable_until_placed() {
    let mut a = LabByteAllocator::new();
    a.init(START, SIZE);
    // No probe was given, so segment B has not been placed behind segment A.
    assert_eq!(a.allocate(100, 8), Err(AllocError::OutOfMemory));
    assert_eq!(a.segment_b_live(), 0);
    assert_eq!(a.segment_b_cursor(), 0);
    // Segment A serves its requests meanwhile.
    assert_eq!(a.allocate(384, 8), Ok(START));
    // The latest position-0 request was not the probe size: growing does not place B.
    a.add_memory(START, SIZE);
    assert_eq!(a.allocate(100, 8), Err(AllocError::OutOfMemory));
}
