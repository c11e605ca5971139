//! Tests of the page-table entry encoding: packing, extraction, flag
//! predicates, and the canonical empty entry.

use sv39_page_table::addr::FrameNumber;
use sv39_page_table::pte::FLAG_A;
use sv39_page_table::pte::FLAG_D;
use sv39_page_table::pte::FLAG_G;
use sv39_page_table::pte::FLAG_R;
use sv39_page_table::pte::FLAG_U;
use sv39_page_table::pte::FLAG_V;
use sv39_page_table::pte::FLAG_W;
use sv39_page_table::pte::FLAG_X;
use sv39_page_table::pte::PTEFlags;
use sv39_page_table::pte::PageTableEntry;

#[test]
fn encode_round_trip_simple() {
    let frame = FrameNumber::new(0x123);
    let flags = PTEFlags::from_bits(FLAG_R | FLAG_W).unwrap();
    let entry = PageTableEntry::new(frame, flags);
    assert_eq!(entry.frame_number().bits, 0x123);
    assert_eq!(entry.flags().bits, FLAG_R | FLAG_W);
}

#[test]
fn encode_round_trip_extremes() {
    // The largest frame number that fits the 44-bit field, with every flag.
    let frame = FrameNumber::new(0xfff_ffff_ffff);
    let flags = PTEFlags::from_bits(0xff).unwrap();
    let entry = PageTableEntry::new(frame, flags);
    assert_eq!(entry.frame_number().bits, 0xfff_ffff_ffff);
    assert_eq!(entry.flags().bits, 0xff);

    // Frame zero with no flags.
    let entry = PageTableEntry::new(FrameNumber::new(0), PTEFlags::empty());
    assert_eq!(entry.frame_number().bits, 0);
    assert_eq!(entry.flags().bits, 0);
}

#[test]
fn encode_exact_bit_layout() {
    // Flags sit in the low 8 bits, the frame number starts at bit 10.
    let frame = FrameNumber::new(1);
    let flags = PTEFlags::from_bits(FLAG_V).unwrap();
    let entry = PageTableEntry::new(frame, flags);
    assert_eq!(entry.bits, (1 << 10) | 0x01);
}

#[test]
fn new_adds_no_implicit_valid_bit() {
    let frame = FrameNumber::new(0x10);
    let entry = PageTableEntry::new(frame, PTEFlags::from_bits(FLAG_R).unwrap());
    assert!(!entry.is_valid());
    assert!(entry.is_readable());
}

#[test]
fn flag_predicates() {
    let frame = FrameNumber::new(0x42);
    let flags = PTEFlags::from_bits(FLAG_V | FLAG_R | FLAG_W).unwrap();
    let entry = PageTableEntry::new(frame, flags);
    assert!(entry.is_valid());
    assert!(entry.is_readable());
    assert!(entry.is_writable());
    assert!(!entry.is_executable());

    let exec_only = PageTableEntry::new(frame, PTEFlags::from_bits(FLAG_X).unwrap());
    assert!(exec_only.is_executable());
    assert!(!exec_only.is_readable());
}

#[test]
fn empty_entry_is_invalid() {
    let entry = PageTableEntry::empty();
    assert_eq!(entry.bits, 0);
    assert!(!entry.is_valid());
    let default_entry = PageTableEntry::default();
    assert_eq!(default_entry.bits, 0);
}

#[test]
fn every_byte_is_a_legal_flag_set() {
    // All eight flag bits are defined, so no byte is refused.
    let mut bits: u16 = 0;
    while bits <= 0xff {
        let flags = PTEFlags::from_bits(bits as u8);
        assert_eq!(flags.unwrap().bits, bits as u8);
        bits += 1;
    }
}

#[test]
fn flag_set_operations() {
    let rw = PTEFlags::from_bits(FLAG_R | FLAG_W).unwrap();
    let v = PTEFlags::from_bits(FLAG_V).unwrap();
    let all = rw.union(v);
    assert_eq!(all.bits, FLAG_V | FLAG_R | FLAG_W);
    assert!(all.contains(rw));
    assert!(all.contains(v));
    assert!(!rw.contains(v));
    let every = PTEFlags::from_bits(
        FLAG_V | FLAG_R | FLAG_W | FLAG_X | FLAG_U | FLAG_G | FLAG_A | FLAG_D,
    )
    .unwrap();
    assert_eq!(every.bits, 0xff);
}
