use rkyv::allocator::{Allocator, ArenaHandle, MemoryLayout, SubAllocator};
use rkyv::error::SerializeError;

#[test]
fn nested_acquire_release_within_capacity_succeeds() {
    let mut a = SubAllocator::new(16);
    let outer_layout = MemoryLayout::new(4, 4);
    let outer = a.push_alloc(outer_layout).unwrap();
    assert_eq!(outer.buf.len(), 4);
    assert_eq!(outer.index % 4, 0);

    let inner_layout = MemoryLayout::new(2, 1);
    let inner = a.push_alloc(inner_layout).unwrap();
    assert_eq!(inner.buf.len(), 2);

    assert!(a.pop_alloc(inner, inner_layout).is_ok());
    assert!(a.pop_alloc(outer, outer_layout).is_ok());
}

#[test]
fn acquired_offsets_respect_alignment() {
    let mut a = SubAllocator::new(16);
    let one = MemoryLayout::new(1, 1);
    let first = a.push_alloc(one).unwrap();
    assert_eq!(first.index, 0);

    let four = MemoryLayout::new(4, 4);
    let second = a.push_alloc(four).unwrap();
    assert_eq!(second.index, 4);
    assert_eq!(second.index % 4, 0);

    assert!(a.pop_alloc(second, four).is_ok());
    assert!(a.pop_alloc(first, one).is_ok());
}

#[test]
fn out_of_order_release_fails_and_leaves_arena_unchanged() {
    let mut a = SubAllocator::new(16);
    let layout = MemoryLayout::new(2, 1);
    let first = a.push_alloc(layout).unwrap();
    let second = a.push_alloc(layout).unwrap();

    // The first region is not the most recently acquired open region.
    let e = a.pop_alloc(first, layout).unwrap_err();
    assert_eq!(e, SerializeError::AllocationMismatch);

    // The failed release changed nothing: the stack still unwinds in order.
    let first_again = rkyv::allocator::ScratchRegion { index: 0, buf: vec![0, 0] };
    assert!(a.pop_alloc(second, layout).is_ok());
    assert!(a.pop_alloc(first_again, layout).is_ok());
}

#[test]
fn release_with_wrong_layout_fails() {
    let mut a = SubAllocator::new(16);
    let layout = MemoryLayout::new(2, 1);
    let region = a.push_alloc(layout).unwrap();
    let wrong = MemoryLayout::new(2, 2);
    let e = a.pop_alloc(region, wrong).unwrap_err();
    assert_eq!(e, SerializeError::AllocationMismatch);
}

#[test]
fn release_on_empty_arena_fails() {
    let mut a = SubAllocator::new(8);
    let layout = MemoryLayout::new(1, 1);
    let region = rkyv::allocator::ScratchRegion { index: 0, buf: vec![0] };
    assert_eq!(a.pop_alloc(region, layout), Err(SerializeError::AllocationMismatch));
}

#[test]
fn exhaustion_fails_and_leaves_open_regions_untouched() {
    let mut a = SubAllocator::new(8);
    let small = MemoryLayout::new(4, 1);
    let held = a.push_alloc(small).unwrap();

    let big = MemoryLayout::new(8, 1);
    let e = a.push_alloc(big).unwrap_err();
    assert_eq!(e, SerializeError::OutOfMemory);

    // The held region is untouched and still releases.
    assert_eq!(held.buf.len(), 4);
    assert!(a.pop_alloc(held, small).is_ok());
}

#[test]
fn zero_sized_acquire_succeeds_even_when_full() {
    let mut a = SubAllocator::new(4);
    let fill = MemoryLayout::new(4, 1);
    let held = a.push_alloc(fill).unwrap();
    let empty = MemoryLayout::new(0, 1);
    let zero = a.push_alloc(empty).unwrap();
    assert_eq!(zero.buf.len(), 0);
    assert!(a.pop_alloc(zero, empty).is_ok());
    assert!(a.pop_alloc(held, fill).is_ok());
}

#[test]
fn arena_handle_grows_beyond_any_fixed_capacity() {
    let mut a = ArenaHandle::new();
    let layout = MemoryLayout::new(1 << 16, 8);
    let region = a.push_alloc(layout).unwrap();
    assert_eq!(region.buf.len(), 1 << 16);
    assert_eq!(region.index % 8, 0);
    assert!(a.pop_alloc(region, layout).is_ok());
}

#[test]
fn arena_handle_enforces_stack_discipline() {
    let mut a = ArenaHandle::new();
    let layout = MemoryLayout::new(8, 1);
    let first = a.push_alloc(layout).unwrap();
    let second = a.push_alloc(layout).unwrap();
    assert_eq!(a.pop_alloc(first, layout), Err(SerializeError::AllocationMismatch));
    assert!(a.pop_alloc(second, layout).is_ok());
}
