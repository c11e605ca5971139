//! Value types for physical frame numbers and virtual page numbers, and the
//! decomposition of a virtual page number into the three 9-bit table indices
//! used by the walk.

use vstd::prelude::*;

verus! {

/// Number of entries in one page table (one table frame holds 512 entries).
pub const ENTRY_COUNT: usize = 512;

/// Exclusive upper bound of a physical frame number: the encoding reserves a
/// 44-bit field for it.
pub const FRAME_NUMBER_LIMIT: u64 = 0x1000_0000_0000;

/// Exclusive upper bound of a virtual page number: three 9-bit indices give
/// 27 significant bits.
pub const PAGE_NUMBER_LIMIT: u64 = 0x800_0000;

/// Identifies one physical page-aligned frame of memory.
#[derive(Clone, Copy, Debug, PartialEq, Eq, Structural)]
pub struct FrameNumber {
    pub bits: u64,
}

impl FrameNumber {
    /// A frame number is well formed when it fits the 44-bit field of a
    /// page-table entry.
    pub open spec fn wf(self) -> bool {
        self.bits < FRAME_NUMBER_LIMIT
    }

    pub fn new(bits: u64) -> (r: FrameNumber)
        requires
            bits < FRAME_NUMBER_LIMIT,
        ensures
            r.bits == bits,
            r.wf(),
    {
        FrameNumber { bits }
    }
}

/// Identifies one virtual page-aligned address.
#[derive(Clone, Copy, Debug, PartialEq, Eq, Structural)]
pub struct PageNumber {
    pub bits: u64,
}

impl PageNumber {
    /// A page number is well formed when it fits the 27 bits that the three
    /// 9-bit indices cover.
    pub open spec fn wf(self) -> bool {
        self.bits < PAGE_NUMBER_LIMIT
    }

    pub fn new(bits: u64) -> (r: PageNumber)
        requires
            bits < PAGE_NUMBER_LIMIT,
        ensures
            r.bits == bits,
            r.wf(),
    {
        PageNumber { bits }
    }

    /// The 9-bit table index used at the given walk level, most significant
    /// bits first: level 0 is the root level, level 2 the leaf level.
    pub open spec fn spec_index(self, level: int) -> u64 {
        if level == 0 {
            (self.bits >> 18) & 0x1ff
        } else if level == 1 {
            (self.bits >> 9) & 0x1ff
        } else {
            self.bits & 0x1ff
        }
    }

    /// Extracts the table index for one walk level.
    pub fn index_of(&self, level: usize) -> (r: usize)
        requires
            level < 3,
        ensures
            r == self.spec_index(level as int),
            r < ENTRY_COUNT,
    {
        let r: u64 = if level == 0 {
            (self.bits >> 18) & 0x1ff
        } else if level == 1 {
            (self.bits >> 9) & 0x1ff
        } else {
            self.bits & 0x1ff
        };
        proof {
            lemma_index_fits(self.bits);
        }
        r as usize
    }
}

/// Each of the three extracted indices is below the table size.
pub proof fn lemma_index_fits(bits: u64)
    ensures
        (bits >> 18) & 0x1ff < 512,
        (bits >> 9) & 0x1ff < 512,
        bits & 0x1ff < 512,
{
    assert((bits >> 18) & 0x1ff < 512) by (bit_vector);
    assert((bits >> 9) & 0x1ff < 512) by (bit_vector);
    assert(bits & 0x1ff < 512) by (bit_vector);
}

/// Two well-formed page numbers that agree on all three indices are the same
/// page: the index decomposition loses no information.
pub proof fn lemma_indices_determine_page(p: PageNumber, q: PageNumber)
    requires
        p.wf(),
        q.wf(),
        p.spec_index(0) == q.spec_index(0),
        p.spec_index(1) == q.spec_index(1),
        p.spec_index(2) == q.spec_index(2),
    ensures
        p.bits == q.bits,
{
    let pb = p.bits;
    let qb = q.bits;
    assert(pb < 0x800_0000 && qb < 0x800_0000 && (pb >> 18) & 0x1ff == (qb >> 18) & 0x1ff && (pb
        >> 9) & 0x1ff == (qb >> 9) & 0x1ff && pb & 0x1ff == qb & 0x1ff ==> pb == qb)
        by (bit_vector);
}

} // verus!
