//! Tests of the frame allocator: sequential allocation, exhaustion, and the
//! live-frame count.

use sv39_page_table::addr::FrameNumber;
use sv39_page_table::frame_allocator::FrameAllocator;

#[test]
fn allocates_sequential_frames() {
    let mut allocator = FrameAllocator::new(0x80, 0x84);
    assert_eq!(allocator.allocate().unwrap().bits, 0x80);
    assert_eq!(allocator.allocate().unwrap().bits, 0x81);
    assert_eq!(allocator.allocate().unwrap().bits, 0x82);
    assert_eq!(allocator.allocated_count(), 3);
    assert_eq!(allocator.remaining(), 1);
}

#[test]
fn exhaustion_returns_none() {
    let mut allocator = FrameAllocator::new(5, 6);
    assert!(allocator.allocate().is_some());
    assert!(allocator.allocate().is_none());
    assert!(allocator.allocate().is_none());
    assert_eq!(allocator.allocated_count(), 1);
    assert_eq!(allocator.remaining(), 0);
}

#[test]
fn deallocate_lowers_live_count() {
    let mut allocator = FrameAllocator::new(0, 16);
    let a = allocator.allocate().unwrap();
    let b = allocator.allocate().unwrap();
    assert_eq!(allocator.allocated_count(), 2);
    allocator.deallocate(a);
    assert_eq!(allocator.allocated_count(), 1);
    allocator.deallocate(b);
    assert_eq!(allocator.allocated_count(), 0);
    // Frames released do not come back from the budget of a bump allocator.
    assert_eq!(allocator.remaining(), 14);
}

#[test]
fn empty_pool_allocates_nothing() {
    let mut allocator = FrameAllocator::new(7, 7);
    assert!(allocator.allocate().is_none());
    assert_eq!(allocator.allocated_count(), 0);
}

#[test]
fn frame_number_construction() {
    let frame = FrameNumber::new(0xfff_ffff_ffff);
    assert_eq!(frame.bits, 0xfff_ffff_ffff);
    let zero = FrameNumber::new(0);
    assert_eq!(zero.bits, 0);
}
