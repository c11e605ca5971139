//! The page table: one root table and the intermediate tables it has
//! allocated, with the three-level walk that creates, finds, and tears down
//! mappings from virtual pages to physical frames.

use vstd::prelude::*;
use crate::addr::FrameNumber;
use crate::addr::PageNumber;
use crate::addr::lemma_indices_determine_page;
use crate::frame_allocator::FrameAllocator;
use crate::pte::PTEFlags;
use crate::pte::PageTableEntry;
use crate::pte::FLAG_V;
use crate::pte::lemma_force_valid;
use crate::pte::spec_encode;

verus! {

/// The failures a page-table operation can report.
#[derive(Clone, Copy, Debug, PartialEq, Eq, Structural)]
pub enum PageTableError {
    /// The frame allocator had no frame to give for an intermediate table.
    FrameExhausted,
    /// A walk could not reach the leaf level: some intermediate table is
    /// missing.
    NotMapped,
}

/// A leaf-level table: 512 entries that map pages to data frames.
struct LeafTable {
    entries: Vec<PageTableEntry>,
}

/// A mid-level table: 512 entries, where a valid entry points to a leaf
/// table.
struct MidTable {
    entries: Vec<PageTableEntry>,
    children: Vec<Option<LeafTable>>,
}

/// The root table: 512 entries, where a valid entry points to a mid-level
/// table.
struct RootTable {
    entries: Vec<PageTableEntry>,
    children: Vec<Option<MidTable>>,
}

impl LeafTable {
    spec fn wf(self) -> bool {
        self.entries@.len() == 512
    }
}

impl MidTable {
    spec fn wf(self) -> bool {
        &&& self.entries@.len() == 512
        &&& self.children@.len() == 512
        &&& forall|i: int|
            0 <= i < 512 ==> ((#[trigger] self.entries@[i]).spec_is_valid() <==> self.children@[i]
                is Some)
        &&& forall|i: int|
            0 <= i < 512 && (#[trigger] self.children@[i]) is Some ==> self.children@[i]->0.wf()
    }
}

impl RootTable {
    spec fn wf(self) -> bool {
        &&& self.entries@.len() == 512
        &&& self.children@.len() == 512
        &&& forall|i: int|
            0 <= i < 512 ==> ((#[trigger] self.entries@[i]).spec_is_valid() <==> self.children@[i]
                is Some)
        &&& forall|i: int|
            0 <= i < 512 && (#[trigger] self.children@[i]) is Some ==> self.children@[i]->0.wf()
    }
}

/// Builds the 512 zeroed entries of a fresh table.
fn empty_entries() -> (r: Vec<PageTableEntry>)
    ensures
        r@.len() == 512,
        forall|i: int| 0 <= i < 512 ==> r@[i] == PageTableEntry::spec_empty(),
{
    let mut v: Vec<PageTableEntry> = Vec::new();
    let mut i: usize = 0;
    while i < 512
        invariant
            i <= 512,
            v@.len() == i,
            forall|j: int| 0 <= j < i ==> v@[j] == PageTableEntry::spec_empty(),
        decreases 512 - i,
    {
        v.push(PageTableEntry::empty());
        i = i + 1;
    }
    v
}

/// Builds the 512 empty child slots of a fresh table.
fn empty_slots<T>() -> (r: Vec<Option<T>>)
    ensures
        r@.len() == 512,
        forall|i: int| 0 <= i < 512 ==> r@[i] is None,
{
    let mut v: Vec<Option<T>> = Vec::new();
    let mut i: usize = 0;
    while i < 512
        invariant
            i <= 512,
            v@.len() == i,
            forall|j: int| 0 <= j < i ==> v@[j] is None,
        decreases 512 - i,
    {
        v.push(None);
        i = i + 1;
    }
    v
}

impl LeafTable {
    fn new() -> (r: LeafTable)
        ensures
            r.wf(),
            forall|i: int| 0 <= i < 512 ==> r.entries@[i] == PageTableEntry::spec_empty(),
    {
        LeafTable { entries: empty_entries() }
    }
}

impl MidTable {
    fn new() -> (r: MidTable)
        ensures
            r.wf(),
            forall|i: int| 0 <= i < 512 ==> r.entries@[i] == PageTableEntry::spec_empty(),
    {
        proof {
            crate::pte::lemma_empty_entry_not_valid();
        }
        MidTable { entries: empty_entries(), children: empty_slots() }
    }
}

impl RootTable {
    fn new() -> (r: RootTable)
        ensures
            r.wf(),
            forall|i: int| 0 <= i < 512 ==> r.entries@[i] == PageTableEntry::spec_empty(),
    {
        proof {
            crate::pte::lemma_empty_entry_not_valid();
        }
        RootTable { entries: empty_entries(), children: empty_slots() }
    }
}

/// A three-level page table. It owns its root frame and every intermediate
/// table frame it has allocated; the data frames that `map` installs are the
/// caller's responsibility.
pub struct PageTable {
    root_frame: FrameNumber,
    frame_list: Vec<FrameNumber>,
    root: RootTable,
}

/// The entry that `map` installs for a frame and the caller's flags: the
/// caller's flags with the valid flag forced in.
pub open spec fn spec_mapped_entry(frame_number: FrameNumber, flags: PTEFlags) -> PageTableEntry {
    PageTableEntry { bits: spec_encode(frame_number.bits, flags.bits | FLAG_V) }
}

impl PageTable {
    /// The table's structure is well formed: every table has 512 entries and
    /// a non-leaf entry is valid exactly when its child table is present.
    pub closed spec fn wf(self) -> bool {
        &&& self.root.wf()
        &&& self.root_frame.wf()
    }

    /// The frame number of the root table.
    pub closed spec fn spec_root_frame(self) -> u64 {
        self.root_frame.bits
    }

    /// The frames this table owns: its root (when it allocated one) and
    /// every intermediate table frame it has allocated, in allocation order.
    pub closed spec fn spec_owned_frames(self) -> Seq<FrameNumber> {
        self.frame_list@
    }

    /// The result of the three-level walk: `None` when some intermediate
    /// table on the path is missing, otherwise the leaf entry, valid or not.
    pub closed spec fn spec_translate(self, page_number: PageNumber) -> Option<PageTableEntry> {
        let i0 = page_number.spec_index(0) as int;
        let i1 = page_number.spec_index(1) as int;
        let i2 = page_number.spec_index(2) as int;
        if !self.root.entries@[i0].spec_is_valid() {
            None
        } else {
            let mid = self.root.children@[i0]->0;
            if !mid.entries@[i1].spec_is_valid() {
                None
            } else {
                Some(mid.children@[i1]->0.entries@[i2])
            }
        }
    }

    /// How many intermediate tables a `map` of this page still has to
    /// allocate: 2 when the root entry on its path is empty, 1 when only the
    /// leaf table is missing, 0 when the path is complete.
    pub closed spec fn spec_missing_tables(self, page_number: PageNumber) -> int {
        let i0 = page_number.spec_index(0) as int;
        let i1 = page_number.spec_index(1) as int;
        if !self.root.entries@[i0].spec_is_valid() {
            2
        } else if !self.root.children@[i0]->0.entries@[i1].spec_is_valid() {
            1
        } else {
            0
        }
    }

    /// What a successful `map` guarantees: the mapped page now translates to
    /// the freshly encoded entry; every other page whose walk already reached
    /// a leaf slot translates exactly as before; a page whose walk was
    /// incomplete either still fails or now reaches a freshly zeroed, invalid
    /// slot of a table the call created — it stays unmapped either way. The
    /// table acquired exactly the intermediate tables its path lacked.
    pub open spec fn map_ok_post(
        pre: PageTable,
        post: PageTable,
        page_number: PageNumber,
        frame_number: FrameNumber,
        flags: PTEFlags,
    ) -> bool {
        &&& post.wf()
        &&& post.spec_translate(page_number) == Some(spec_mapped_entry(frame_number, flags))
        &&& forall|q: PageNumber|
            q.wf() && q.bits != page_number.bits && pre.spec_translate(q) is Some
                ==> post.spec_translate(q) == pre.spec_translate(q)
        &&& forall|q: PageNumber|
            q.wf() && q.bits != page_number.bits && pre.spec_translate(q) is None ==> (
            post.spec_translate(q) is None || post.spec_translate(q) == Some(
                PageTableEntry::spec_empty(),
            ))
        &&& post.spec_owned_frames().len() == pre.spec_owned_frames().len()
            + pre.spec_missing_tables(page_number)
        &&& pre.spec_owned_frames().is_prefix_of(post.spec_owned_frames())
        &&& post.spec_root_frame() == pre.spec_root_frame()
    }

    /// What `unmap` guarantees: when the walk reaches a leaf slot the call
    /// succeeds, the slot is reset to the canonical empty entry and nothing
    /// else changes; when it cannot, the call reports `NotMapped` and the
    /// table is untouched.
    pub open spec fn unmap_post(
        pre: PageTable,
        post: PageTable,
        page_number: PageNumber,
        r: Result<(), PageTableError>,
    ) -> bool {
        if pre.spec_translate(page_number) is Some {
            &&& r is Ok
            &&& post.wf()
            &&& post.spec_translate(page_number) == Some(PageTableEntry::spec_empty())
            &&& forall|q: PageNumber|
                q.wf() && q.bits != page_number.bits ==> post.spec_translate(q)
                    == pre.spec_translate(q)
            &&& post.spec_owned_frames() == pre.spec_owned_frames()
            &&& post.spec_root_frame() == pre.spec_root_frame()
        } else {
            &&& r == Err::<(), PageTableError>(PageTableError::NotMapped)
            &&& post == pre
        }
    }

    /// Creates a page table over a freshly allocated root frame. The root
    /// frame is owned, so destroying the table releases it. Fails only when
    /// the allocator is exhausted, in which case the allocator is untouched.
    pub fn new(allocator: &mut FrameAllocator) -> (r: Result<PageTable, PageTableError>)
        requires
            old(allocator).wf(),
        ensures
            final(allocator).wf(),
            r is Ok <==> old(allocator).spec_remaining() > 0,
            r is Err ==> r == Err::<PageTable, PageTableError>(PageTableError::FrameExhausted)
                && *final(allocator) == *old(allocator),
            r is Ok ==> {
                &&& r->Ok_0.wf()
                &&& r->Ok_0.spec_owned_frames().len() == 1
                &&& r->Ok_0.spec_root_frame() == old(allocator).spec_next()
                &&& forall|q: PageNumber| q.wf() ==> r->Ok_0.spec_translate(q) is None
                &&& forall|q: PageNumber| q.wf() ==> r->Ok_0.spec_missing_tables(q) == 2
                &&& r->Ok_0.spec_owned_frames()[0].bits == old(allocator).spec_next()
                &&& final(allocator).spec_allocated() == old(allocator).spec_allocated() + 1
                &&& final(allocator).spec_remaining() == old(allocator).spec_remaining() - 1
            },
    {
        let frame = match allocator.allocate() {
            Some(f) => f,
            None => {
                return Err(PageTableError::FrameExhausted);
            },
        };
        let mut frame_list: Vec<FrameNumber> = Vec::new();
        frame_list.push(frame);
        let table = PageTable { root_frame: frame, frame_list, root: RootTable::new() };
        proof {
            crate::pte::lemma_empty_entry_not_valid();
            assert forall|q: PageNumber| q.wf() implies table.spec_translate(q) is None
                && table.spec_missing_tables(q) == 2 by {
                crate::addr::lemma_index_fits(q.bits);
            }
        }
        Ok(table)
    }

    /// Builds a non-owning view over an existing root frame from a hardware
    /// token: the low 44 bits of the token are the root frame number, the
    /// bits above it carry mode metadata and are masked off. The view owns
    /// no frames, so destroying it releases none.
    pub fn from_token(satp: u64) -> (r: PageTable)
        ensures
            r.wf(),
            r.spec_owned_frames().len() == 0,
            r.spec_root_frame() == satp & 0xfff_ffff_ffff,
            forall|q: PageNumber| q.wf() ==> r.spec_translate(q) is None,
            forall|q: PageNumber| q.wf() ==> r.spec_missing_tables(q) == 2,
    {
        let bits = satp & 0xfff_ffff_ffff;
        proof {
            assert(satp & 0xfff_ffff_ffff < 0x1000_0000_0000) by (bit_vector);
        }
        let table = PageTable {
            root_frame: FrameNumber::new(bits),
            frame_list: Vec::new(),
            root: RootTable::new(),
        };
        proof {
            crate::pte::lemma_empty_entry_not_valid();
            assert forall|q: PageNumber| q.wf() implies table.spec_translate(q) is None
                && table.spec_missing_tables(q) == 2 by {
                crate::addr::lemma_index_fits(q.bits);
            }
        }
        table
    }

    /// Maps a virtual page to a physical frame with the caller's flags plus
    /// a forced valid flag, overwriting whatever entry the leaf slot held.
    /// Allocates the intermediate tables the path lacks; fails with
    /// `FrameExhausted` exactly when the allocator cannot supply them, and
    /// then changes no translation.
    pub fn map(
        &mut self,
        page_number: PageNumber,
        frame_number: FrameNumber,
        flags: PTEFlags,
        allocator: &mut FrameAllocator,
    ) -> (r: Result<(), PageTableError>)
        requires
            old(self).wf(),
            page_number.wf(),
            frame_number.wf(),
            old(allocator).wf(),
        ensures
            final(self).wf(),
            final(allocator).wf(),
            r is Ok <==> old(allocator).spec_remaining() >= old(self).spec_missing_tables(
                page_number,
            ),
            r is Ok ==> Self::map_ok_post(
                *old(self),
                *final(self),
                page_number,
                frame_number,
                flags,
            ),
            r is Err ==> {
                &&& r == Err::<(), PageTableError>(PageTableError::FrameExhausted)
                &&& final(allocator).spec_remaining() == 0
                &&& forall|q: PageNumber|
                    q.wf() ==> final(self).spec_translate(q) == old(self).spec_translate(q)
                &&& final(self).spec_owned_frames().len() == old(self).spec_owned_frames().len()
                    + old(allocator).spec_remaining()
                &&& old(self).spec_owned_frames().is_prefix_of(final(self).spec_owned_frames())
                &&& final(self).spec_root_frame() == old(self).spec_root_frame()
            },
            final(allocator).spec_allocated() - old(allocator).spec_allocated() == final(self).spec_owned_frames().len() - old(self).spec_owned_frames().len(),
            final(allocator).spec_remaining() - old(allocator).spec_remaining() == old(self).spec_owned_frames().len() as int - final(self).spec_owned_frames().len(),
            forall|k: int|
                old(self).spec_owned_frames().len() <= k < final(self).spec_owned_frames().len()
                    ==> (#[trigger] final(self).spec_owned_frames()[k]).bits == old(
                    allocator,
                ).spec_next() + k - old(self).spec_owned_frames().len(),
    {
        let i0 = page_number.index_of(0);
        let i1 = page_number.index_of(1);
        let i2 = page_number.index_of(2);
        proof {
            lemma_force_valid(flags.bits);
            crate::pte::lemma_empty_entry_not_valid();
            old(allocator).lemma_wf_bounds();
        }
        let root_entry_valid = self.root.entries[i0].is_valid();
        let need_leaf_table = if root_entry_valid {
            let probe = match &self.root.children[i0] {
                Some(m) => m,
                None => unreached(),
            };
            !probe.entries[i1].is_valid()
        } else {
            true
        };
        if !root_entry_valid {
            let frame = match allocator.allocate() {
                Some(f) => f,
                None => {
                    return Err(PageTableError::FrameExhausted);
                },
            };
            self.root.entries[i0] = PageTableEntry::new(frame, PTEFlags { bits: FLAG_V });
            self.root.children[i0] = Some(MidTable::new());
            self.frame_list.push(frame);
        }
        if need_leaf_table {
            let frame = match allocator.allocate() {
                Some(f) => f,
                None => {
                    proof {
                        assert forall|q: PageNumber| q.wf() implies self.spec_translate(q) == old(
                            self,
                        ).spec_translate(q) by {
                            crate::addr::lemma_index_fits(q.bits);
                        }
                    }
                    return Err(PageTableError::FrameExhausted);
                },
            };
            let mid = match &mut self.root.children[i0] {
                Some(m) => m,
                None => unreached(),
            };
            mid.entries[i1] = PageTableEntry::new(frame, PTEFlags { bits: FLAG_V });
            mid.children[i1] = Some(LeafTable::new());
            self.frame_list.push(frame);
        }
        let mid = match &mut self.root.children[i0] {
            Some(m) => m,
            None => unreached(),
        };
        let leaf = match &mut mid.children[i1] {
            Some(l) => l,
            None => unreached(),
        };
        leaf.entries[i2] = PageTableEntry::new(frame_number, flags.union(PTEFlags { bits: FLAG_V }));
        proof {
            assert forall|q: PageNumber| q.wf() && q.bits != page_number.bits implies ((old(
                self,
            ).spec_translate(q) is Some ==> self.spec_translate(q) == old(self).spec_translate(q))
                && (old(self).spec_translate(q) is None ==> (self.spec_translate(q) is None
                || self.spec_translate(q) == Some(PageTableEntry::spec_empty())))) by {
                crate::addr::lemma_index_fits(q.bits);
                if q.spec_index(0) == page_number.spec_index(0) && q.spec_index(1)
                    == page_number.spec_index(1) && q.spec_index(2) == page_number.spec_index(2) {
                    lemma_indices_determine_page(q, page_number);
                }
            }
        }
        Ok(())
    }

    /// Clears the leaf entry of a virtual page, resetting the slot to the
    /// canonical empty entry. When the walk cannot reach the leaf level, the
    /// mapping never existed: the call reports `NotMapped` and changes
    /// nothing.
    pub fn unmap(&mut self, page_number: PageNumber) -> (r: Result<(), PageTableError>)
        requires
            old(self).wf(),
            page_number.wf(),
        ensures
            Self::unmap_post(*old(self), *final(self), page_number, r),
    {
        if self.translate(page_number).is_none() {
            return Err(PageTableError::NotMapped);
        }
        let i0 = page_number.index_of(0);
        let i1 = page_number.index_of(1);
        let i2 = page_number.index_of(2);
        let mid = match &mut self.root.children[i0] {
            Some(m) => m,
            None => unreached(),
        };
        let leaf = match &mut mid.children[i1] {
            Some(l) => l,
            None => unreached(),
        };
        leaf.entries[i2] = PageTableEntry::empty();
        proof {
            assert forall|q: PageNumber| q.wf() && q.bits != page_number.bits implies self.spec_translate(
                q,
            ) == old(self).spec_translate(q) by {
                crate::addr::lemma_index_fits(q.bits);
                if q.spec_index(0) == page_number.spec_index(0) && q.spec_index(1)
                    == page_number.spec_index(1) && q.spec_index(2) == page_number.spec_index(2) {
                    lemma_indices_determine_page(q, page_number);
                }
            }
        }
        Ok(())
    }

    /// Walks the table read-only and returns a copy of the leaf entry, valid
    /// or not, or `None` when some intermediate table on the path is
    /// missing. Never allocates.
    pub fn translate(&self, page_number: PageNumber) -> (r: Option<PageTableEntry>)
        requires
            self.wf(),
            page_number.wf(),
        ensures
            r == self.spec_translate(page_number),
    {
        let i0 = page_number.index_of(0);
        let i1 = page_number.index_of(1);
        let i2 = page_number.index_of(2);
        if !self.root.entries[i0].is_valid() {
            return None;
        }
        let mid = match &self.root.children[i0] {
            Some(m) => m,
            None => unreached(),
        };
        if !mid.entries[i1].is_valid() {
            return None;
        }
        let leaf = match &mid.children[i1] {
            Some(l) => l,
            None => unreached(),
        };
        Some(leaf.entries[i2])
    }

    /// How many frames the table currently owns.
    pub fn owned_frame_count(&self) -> (r: usize)
        ensures
            r == self.spec_owned_frames().len(),
    {
        self.frame_list.len()
    }

    /// Destroys the table, releasing back to the allocator exactly the
    /// frames it owns: the root and intermediate table frames it allocated,
    /// and nothing when it was built as a non-owning view.
    pub fn destroy(self, allocator: &mut FrameAllocator)
        requires
            old(allocator).wf(),
            old(allocator).spec_allocated() >= self.spec_owned_frames().len(),
        ensures
            final(allocator).wf(),
            final(allocator).spec_allocated() == old(allocator).spec_allocated()
                - self.spec_owned_frames().len(),
            final(allocator).spec_next() == old(allocator).spec_next(),
            final(allocator).spec_remaining() == old(allocator).spec_remaining(),
    {
        let mut i: usize = 0;
        while i < self.frame_list.len()
            invariant
                i <= self.frame_list@.len(),
                allocator.wf(),
                allocator.spec_allocated() == old(allocator).spec_allocated() - i,
                allocator.spec_next() == old(allocator).spec_next(),
                allocator.spec_remaining() == old(allocator).spec_remaining(),
                old(allocator).spec_allocated() >= self.spec_owned_frames().len(),
                self.frame_list@.len() == self.spec_owned_frames().len(),
            decreases self.frame_list@.len() - i,
        {
            allocator.deallocate(self.frame_list[i]);
            i = i + 1;
        }
    }
}

/// Law: after a map of page `p` to frame `f` with flags `g`, translating `p`
/// yields a valid entry whose frame number is exactly `f` and whose flags
/// contain every flag of `g`.
pub proof fn lemma_map_then_translate(
    t0: PageTable,
    t1: PageTable,
    p: PageNumber,
    f: FrameNumber,
    g: PTEFlags,
)
    requires
        t0.wf(),
        p.wf(),
        f.wf(),
        PageTable::map_ok_post(t0, t1, p, f, g),
    ensures
        t1.spec_translate(p) is Some,
        t1.spec_translate(p)->0.spec_frame_number() == f.bits,
        t1.spec_translate(p)->0.spec_flags() & g.bits == g.bits,
        t1.spec_translate(p)->0.spec_is_valid(),
{
    crate::pte::lemma_encode_round_trip(f.bits, g.bits | FLAG_V);
    lemma_force_valid(g.bits);
}

/// Law: after a map of a page, an unmap of that page succeeds, and the page
/// then translates to the canonical empty entry, which is not valid.
pub proof fn lemma_map_then_unmap(
    t0: PageTable,
    t1: PageTable,
    t2: PageTable,
    p: PageNumber,
    f: FrameNumber,
    g: PTEFlags,
    r: Result<(), PageTableError>,
)
    requires
        t0.wf(),
        p.wf(),
        f.wf(),
        PageTable::map_ok_post(t0, t1, p, f, g),
        PageTable::unmap_post(t1, t2, p, r),
    ensures
        r is Ok,
        t2.spec_translate(p) is Some,
        !t2.spec_translate(p)->0.spec_is_valid(),
{
    crate::pte::lemma_empty_entry_not_valid();
}

/// Law: unmapping a page twice in a row gives the second call the same
/// outcome as the first and changes nothing further. After a successful
/// unmap the slot is already empty, so the second call succeeds, leaves the
/// slot empty and every translation and owned frame as it was; after a
/// failed unmap the table was untouched, so the second call fails the same
/// way.
pub proof fn lemma_unmap_idempotent(
    t0: PageTable,
    t1: PageTable,
    t2: PageTable,
    p: PageNumber,
    r1: Result<(), PageTableError>,
    r2: Result<(), PageTableError>,
)
    requires
        t0.wf(),
        p.wf(),
        PageTable::unmap_post(t0, t1, p, r1),
        PageTable::unmap_post(t1, t2, p, r2),
    ensures
        r1 is Ok <==> r2 is Ok,
        r1 is Ok ==> t2.spec_translate(p) == Some(PageTableEntry::spec_empty()),
        forall|q: PageNumber| q.wf() ==> t2.spec_translate(q) == t1.spec_translate(q),
        t2.spec_owned_frames() == t1.spec_owned_frames(),
{
    if t0.spec_translate(p) is Some {
        assert forall|q: PageNumber| q.wf() implies t2.spec_translate(q) == t1.spec_translate(
            q,
        ) by {
            if q.bits == p.bits {
                assert(q == p);
            }
        }
    }
}

/// Law: mapping a page a second time overwrites the first mapping entirely:
/// the page then translates to the entry encoding the second frame and the
/// second flag set, with no residue of the first.
pub proof fn lemma_map_overwrites(
    t0: PageTable,
    t1: PageTable,
    t2: PageTable,
    p: PageNumber,
    f1: FrameNumber,
    g1: PTEFlags,
    f2: FrameNumber,
    g2: PTEFlags,
)
    requires
        t0.wf(),
        p.wf(),
        f1.wf(),
        f2.wf(),
        PageTable::map_ok_post(t0, t1, p, f1, g1),
        PageTable::map_ok_post(t1, t2, p, f2, g2),
    ensures
        t2.spec_translate(p) == Some(spec_mapped_entry(f2, g2)),
        t2.spec_translate(p)->0.spec_frame_number() == f2.bits,
        t2.spec_translate(p)->0.spec_flags() == g2.bits | FLAG_V,
{
    crate::pte::lemma_encode_round_trip(f2.bits, g2.bits | FLAG_V);
}

/// Law: a table releases exactly what it acquired. Construction and mapping
/// raise the allocator's live count by exactly the number of frames the
/// table records as owned, destruction lowers it by that same number, and
/// so the live count returns to what it was before the table existed. A
/// table built with `from_token` owns nothing, so it releases nothing.
pub proof fn lemma_destroy_releases_exactly_what_was_acquired(
    a0: FrameAllocator,
    a1: FrameAllocator,
    a2: FrameAllocator,
    t: PageTable,
)
    requires
        a1.spec_allocated() == a0.spec_allocated() + t.spec_owned_frames().len(),
        a2.spec_allocated() == a1.spec_allocated() - t.spec_owned_frames().len(),
    ensures
        a2.spec_allocated() == a0.spec_allocated(),
        t.spec_owned_frames().len() == 0 ==> a2.spec_allocated() == a1.spec_allocated(),
{
}

/// Law: a page whose upper two indices match those of an already reachable
/// page has no missing tables: mapping it allocates nothing, so the
/// owned-frame list does not grow for the shared levels.
pub proof fn lemma_shared_path_needs_no_tables(t: PageTable, p: PageNumber, q: PageNumber)
    requires
        t.wf(),
        p.wf(),
        q.wf(),
        t.spec_translate(p) is Some,
        p.spec_index(0) == q.spec_index(0),
        p.spec_index(1) == q.spec_index(1),
    ensures
        t.spec_missing_tables(q) == 0,
{
}

} // verus!
