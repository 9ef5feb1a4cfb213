use gg_os::heap::Heap;
use gg_os::{HEAP_SIZE, HEAP_START};

#[test]
fn allocation_before_init_is_out_of_memory() {
    let mut h = Heap::empty();
    assert_eq!(h.allocate(64), None);
}

#[test]
fn first_allocation_starts_at_the_heap_base() {
    let mut h = Heap::empty();
    h.init(HEAP_START, HEAP_SIZE);
    assert_eq!(h.allocate(64), Some(HEAP_START));
    assert_eq!(h.allocate(8), Some(HEAP_START + 64));
}

#[test]
fn allocations_are_eight_byte_aligned() {
    let mut h = Heap::empty();
    h.init(HEAP_START, HEAP_SIZE);
    assert_eq!(h.allocate(3), Some(HEAP_START));
    let second = h.allocate(1).unwrap();
    assert_eq!(second, HEAP_START + 8);
    assert_eq!(second % 8, 0);
}

#[test]
fn empty_requests_are_refused() {
    let mut h = Heap::empty();
    h.init(HEAP_START, HEAP_SIZE);
    assert_eq!(h.allocate(0), None);
}

#[test]
fn requests_past_the_end_are_out_of_memory_forever() {
    let mut h = Heap::empty();
    h.init(0x1000, 64);
    assert_eq!(h.allocate(48), Some(0x1000));
    assert_eq!(h.allocate(32), None);
    assert_eq!(h.allocate(16), Some(0x1030));
    assert_eq!(h.allocate(1), None);
    assert_eq!(h.allocate(1), None);
}

#[test]
fn oversized_request_is_refused_without_moving_the_heap() {
    let mut h = Heap::empty();
    h.init(HEAP_START, HEAP_SIZE);
    assert_eq!(h.allocate(HEAP_SIZE + 1), None);
    // the refusal consumed nothing
    assert_eq!(h.allocate(HEAP_SIZE), Some(HEAP_START));
}

#[test]
fn out_of_memory_is_terminal() {
    assert_eq!(gg_os::heap::oom(), gg_os::interrupts::FaultOutcome::Halt);
}
