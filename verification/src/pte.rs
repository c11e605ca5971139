//! The fixed-width page-table entry encoding: an 8-bit flag field in the low
//! bits and a 44-bit physical frame number starting at bit 10.

use vstd::prelude::*;
use crate::addr::FrameNumber;
use crate::addr::FRAME_NUMBER_LIMIT;

verus! {

/// Entry is valid.
pub const FLAG_V: u8 = 0x01;

/// Page is readable.
pub const FLAG_R: u8 = 0x02;

/// Page is writable.
pub const FLAG_W: u8 = 0x04;

/// Page is executable.
pub const FLAG_X: u8 = 0x08;

/// Page is accessible in user mode.
pub const FLAG_U: u8 = 0x10;

/// Mapping is global.
pub const FLAG_G: u8 = 0x20;

/// Page has been accessed.
pub const FLAG_A: u8 = 0x40;

/// Page has been written.
pub const FLAG_D: u8 = 0x80;

/// A set of page-table entry flags. All eight bits of the field are defined,
/// so every byte is a legal flag combination.
#[derive(Clone, Copy, Debug, PartialEq, Eq, Structural)]
pub struct PTEFlags {
    pub bits: u8,
}

impl PTEFlags {
    /// The empty flag set.
    pub fn empty() -> (r: PTEFlags)
        ensures
            r.bits == 0,
    {
        PTEFlags { bits: 0 }
    }

    /// Interprets a raw byte as a flag set. Every byte is legal because the
    /// eight defined flags cover the whole field, so this never returns
    /// `None`; the `Option` marks the validation boundary for raw bits.
    pub fn from_bits(bits: u8) -> (r: Option<PTEFlags>)
        ensures
            r == Some(PTEFlags { bits }),
    {
        Some(PTEFlags { bits })
    }

    /// Whether every flag of `other` is also set in `self`.
    pub open spec fn spec_contains(self, other: PTEFlags) -> bool {
        self.bits & other.bits == other.bits
    }

    /// Tests whether every flag of `other` is also set in `self`.
    pub fn contains(&self, other: PTEFlags) -> (r: bool)
        ensures
            r == self.spec_contains(other),
    {
        self.bits & other.bits == other.bits
    }

    /// The union of two flag sets.
    pub fn union(self, other: PTEFlags) -> (r: PTEFlags)
        ensures
            r.bits == self.bits | other.bits,
    {
        PTEFlags { bits: self.bits | other.bits }
    }
}

/// Packs a frame number and a flag byte into the entry word: flags in bits
/// [0, 8), the frame number in bits [10, 54).
pub open spec fn spec_encode(frame: u64, flags: u8) -> u64 {
    (frame << 10) | (flags as u64)
}

/// The 44-bit frame-number field of an entry word.
pub open spec fn spec_frame_of(bits: u64) -> u64 {
    (bits >> 10) & 0xfff_ffff_ffff
}

/// The 8-bit flag field of an entry word.
pub open spec fn spec_flags_of(bits: u64) -> u8 {
    (bits & 0xff) as u8
}

/// Decoding inverts encoding: for a frame number within the 44-bit field and
/// any flag byte, the packed word gives back exactly the frame number and
/// exactly the flags.
pub proof fn lemma_encode_round_trip(frame: u64, flags: u8)
    requires
        frame < FRAME_NUMBER_LIMIT,
    ensures
        spec_frame_of(spec_encode(frame, flags)) == frame,
        spec_flags_of(spec_encode(frame, flags)) == flags,
{
    assert(frame < 0x1000_0000_0000 ==> (((frame << 10) | (flags as u64)) >> 10) & 0xfff_ffff_ffff
        == frame) by (bit_vector);
    assert((((frame << 10) | (flags as u64)) & 0xff) as u8 == flags) by (bit_vector);
}

/// Forcing the valid flag into a flag byte makes the entry valid and keeps
/// every flag the caller asked for.
pub proof fn lemma_force_valid(flags: u8)
    ensures
        (flags | FLAG_V) & FLAG_V == FLAG_V,
        (flags | FLAG_V) & flags == flags,
        FLAG_V & FLAG_V == FLAG_V,
{
    assert((flags | 0x01u8) & 0x01u8 == 0x01u8) by (bit_vector);
    assert((flags | 0x01u8) & flags == flags) by (bit_vector);
    assert(0x01u8 & 0x01u8 == 0x01u8) by (bit_vector);
}

/// One slot of a page table: a frame number with permission and status flags,
/// or the canonical empty entry (all bits zero, in particular not valid).
#[derive(Clone, Copy, Debug, PartialEq, Eq, Structural)]
pub struct PageTableEntry {
    pub bits: u64,
}

impl PageTableEntry {
    /// The canonical empty entry.
    pub open spec fn spec_empty() -> PageTableEntry {
        PageTableEntry { bits: 0 }
    }

    /// The entry that `new` builds from a frame number and flags.
    pub open spec fn spec_new(frame_number: FrameNumber, flags: PTEFlags) -> PageTableEntry {
        PageTableEntry { bits: spec_encode(frame_number.bits, flags.bits) }
    }

    /// Encodes a frame number and flags into an entry. No flag is added
    /// implicitly: a caller that wants a valid entry must set the valid flag
    /// itself.
    pub fn new(frame_number: FrameNumber, flags: PTEFlags) -> (r: PageTableEntry)
        requires
            frame_number.wf(),
        ensures
            r == Self::spec_new(frame_number, flags),
            r.spec_frame_number() == frame_number.bits,
            r.spec_flags() == flags.bits,
    {
        proof {
            lemma_encode_round_trip(frame_number.bits, flags.bits);
        }
        PageTableEntry { bits: (frame_number.bits << 10) | (flags.bits as u64) }
    }

    /// The empty entry; the canonical "unmapped" slot value.
    pub fn empty() -> (r: PageTableEntry)
        ensures
            r == Self::spec_empty(),
    {
        PageTableEntry { bits: 0 }
    }

    /// The frame-number field of this entry.
    pub open spec fn spec_frame_number(self) -> u64 {
        spec_frame_of(self.bits)
    }

    /// Extracts the 44-bit frame-number field.
    pub fn frame_number(&self) -> (r: FrameNumber)
        ensures
            r.bits == self.spec_frame_number(),
            r.wf(),
    {
        let bits = (self.bits >> 10) & 0xfff_ffff_ffff;
        proof {
            let b = self.bits;
            assert((b >> 10) & 0xfff_ffff_ffff < 0x1000_0000_0000) by (bit_vector);
        }
        FrameNumber { bits }
    }

    /// The flag field of this entry.
    pub open spec fn spec_flags(self) -> u8 {
        spec_flags_of(self.bits)
    }

    /// Extracts the low 8 bits as a flag set. Every byte forms a legal flag
    /// combination, so the extraction is total.
    pub fn flags(&self) -> (r: PTEFlags)
        ensures
            r.bits == self.spec_flags(),
    {
        PTEFlags { bits: (self.bits & 0xff) as u8 }
    }

    /// Whether the valid flag is set.
    pub open spec fn spec_is_valid(self) -> bool {
        self.spec_flags() & FLAG_V == FLAG_V
    }

    /// Tests the valid flag.
    pub fn is_valid(&self) -> (r: bool)
        ensures
            r == self.spec_is_valid(),
    {
        self.flags().contains(PTEFlags { bits: FLAG_V })
    }

    /// Whether the readable flag is set.
    pub open spec fn spec_is_readable(self) -> bool {
        self.spec_flags() & FLAG_R == FLAG_R
    }

    /// Tests the readable flag.
    pub fn is_readable(&self) -> (r: bool)
        ensures
            r == self.spec_is_readable(),
    {
        self.flags().contains(PTEFlags { bits: FLAG_R })
    }

    /// Whether the writable flag is set.
    pub open spec fn spec_is_writable(self) -> bool {
        self.spec_flags() & FLAG_W == FLAG_W
    }

    /// Tests the writable flag.
    pub fn is_writable(&self) -> (r: bool)
        ensures
            r == self.spec_is_writable(),
    {
        self.flags().contains(PTEFlags { bits: FLAG_W })
    }

    /// Whether the executable flag is set.
    pub open spec fn spec_is_executable(self) -> bool {
        self.spec_flags() & FLAG_X == FLAG_X
    }

    /// Tests the executable flag.
    pub fn is_executable(&self) -> (r: bool)
        ensures
            r == self.spec_is_executable(),
    {
        self.flags().contains(PTEFlags { bits: FLAG_X })
    }
}

impl Default for PageTableEntry {
    /// The default entry is the canonical empty entry.
    fn default() -> (r: PageTableEntry)
        ensures
            r == PageTableEntry::spec_empty(),
    {
        PageTableEntry { bits: 0 }
    }
}

/// The empty entry is not valid: a zeroed slot is unmapped.
pub proof fn lemma_empty_entry_not_valid()
    ensures
        !PageTableEntry::spec_empty().spec_is_valid(),
{
    assert((0u64 & 0xff) as u8 & 0x01u8 != 0x01u8) by (bit_vector);
}

} // verus!
