use rkyv::allocator::{Allocator, ArenaHandle, MemoryLayout, SubAllocator};
use rkyv::error::SerializeError;
use rkyv::sharing::{Share, Sharing, Unshare};
use rkyv::writer::{Positional, VecWriter, Writer};
use rkyv::{CoreSerializer, DefaultSerializer, Serializer};

#[test]
fn new_and_into_raw_parts_round_trip_components() {
    let mut w = VecWriter::new();
    assert!(w.write(&[1, 2]).is_ok());
    let s = Serializer::new(w, SubAllocator::new(8), Unshare);
    let (w2, mut a2, mut sh2) = s.into_raw_parts();
    assert_eq!(w2.into_vec(), vec![1, 2]);
    let layout = MemoryLayout::new(8, 1);
    let region = a2.push_alloc(layout).unwrap();
    assert!(a2.pop_alloc(region, layout).is_ok());
    assert_eq!(sh2.get_shared_ptr(0), None);
    assert!(sh2.add_shared_ptr(0, 0).is_ok());
}

#[test]
fn into_writer_discards_allocator_and_sharing() {
    let mut s = Serializer::new(VecWriter::new(), ArenaHandle::new(), Share::new());
    assert!(s.write(&[7, 7, 7]).is_ok());
    let w = s.into_writer();
    assert_eq!(w.into_vec(), vec![7, 7, 7]);
}

#[test]
fn capability_calls_are_forwarded_unmodified() {
    let mut s: DefaultSerializer<VecWriter> =
        Serializer::new(VecWriter::new(), ArenaHandle::new(), Share::new());

    assert!(s.write(&[1]).is_ok());
    assert_eq!(s.pos(), 1);

    let layout = MemoryLayout::new(16, 8);
    let region = s.push_alloc(layout).unwrap();
    assert_eq!(region.buf.len(), 16);
    assert!(s.pop_alloc(region, layout).is_ok());

    assert!(s.add_shared_ptr(4096, 1).is_ok());
    assert_eq!(s.get_shared_ptr(4096), Some(1));
    assert_eq!(
        s.add_shared_ptr(4096, 2),
        Err(SerializeError::DuplicateSharedPointer)
    );
}

#[test]
fn bounded_profile_end_to_end() {
    // Bounded profile: 8 bytes of scratch, no sharing.
    let mut s: CoreSerializer<VecWriter> =
        Serializer::new(VecWriter::new(), SubAllocator::new(8), Unshare);

    assert!(s.write(&[10, 20, 30]).is_ok());

    let layout = MemoryLayout::new(4, 1);
    let region = s.push_alloc(layout).unwrap();
    assert_eq!(region.buf.len(), 4);
    assert!(s.pop_alloc(region, layout).is_ok());

    assert!(s.write(&[40, 50]).is_ok());
    assert_eq!(s.pos(), 5);

    let big = MemoryLayout::new(9, 1);
    assert_eq!(s.push_alloc(big).unwrap_err(), SerializeError::OutOfMemory);
    assert_eq!(s.pos(), 5);

    assert_eq!(s.into_writer().into_vec(), vec![10, 20, 30, 40, 50]);
}

#[test]
fn bounded_profile_reports_no_sharing() {
    let mut s: CoreSerializer<VecWriter> =
        Serializer::new(VecWriter::new(), SubAllocator::new(8), Unshare);
    assert!(s.add_shared_ptr(123, 0).is_ok());
    assert_eq!(s.get_shared_ptr(123), None);
}

#[test]
fn first_error_leaves_serializer_consistent() {
    let mut s: CoreSerializer<VecWriter> =
        Serializer::new(VecWriter::new(), SubAllocator::new(4), Unshare);
    let layout = MemoryLayout::new(3, 1);
    let held = s.push_alloc(layout).unwrap();
    let more = MemoryLayout::new(2, 1);
    assert_eq!(s.push_alloc(more).unwrap_err(), SerializeError::OutOfMemory);
    // The failed acquisition left the open region and the writer untouched.
    assert!(s.write(&[1]).is_ok());
    assert_eq!(s.pos(), 1);
    assert!(s.pop_alloc(held, layout).is_ok());
}
