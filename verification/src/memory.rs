//! The memory collaborators the driver calls into: a virtual-page allocator,
//! a physical-frame allocator, and the page-table mapper that records
//! virtual-to-physical mappings and answers address translations.
//!
//! The state is explicit and passed by reference, never a hidden global, so
//! the orchestrator can be driven by the kernel's real allocators or by a
//! stub. Pages and frames are handed out from two upward-moving cursors, and
//! every established mapping lies wholly below the page cursor, so a fresh
//! page never aliases an existing mapping.

use vstd::prelude::*;

verus! {

/// Size of one page and of one frame, in bytes.
pub const PAGE_BYTES: u64 = 4096;

/// One established mapping: `bytes` bytes starting at virtual address `virt`
/// are backed by physical memory starting at `phys`.
#[derive(Clone, Copy, PartialEq, Eq, Structural, Debug)]
pub struct MemRange {
    pub virt: u64,
    pub phys: u64,
    pub bytes: u64,
}

impl MemRange {
    pub open spec fn wf(self) -> bool {
        &&& self.bytes > 0
        &&& self.virt + self.bytes <= u64::MAX as int + 1
        &&& self.phys + self.bytes <= u64::MAX as int + 1
    }

    pub open spec fn spec_virt(self) -> u64 {
        self.virt
    }

    pub open spec fn spec_phys(self) -> u64 {
        self.phys
    }

    pub open spec fn spec_bytes(self) -> u64 {
        self.bytes
    }

    /// Whether the virtual address falls inside this range.
    pub open spec fn spec_contains(self, addr: u64) -> bool {
        self.virt <= addr < self.virt + self.bytes
    }

    /// The physical address backing a virtual address of this range.
    pub open spec fn spec_translate(self, addr: u64) -> u64
        recommends
            self.wf(),
            self.spec_contains(addr),
    {
        (self.phys + (addr - self.virt)) as u64
    }

    pub fn new(virt: u64, phys: u64, bytes: u64) -> (r: Self)
        requires
            bytes > 0,
            virt + bytes <= u64::MAX as int + 1,
            phys + bytes <= u64::MAX as int + 1,
        ensures
            r == (MemRange { virt, phys, bytes }),
            r.wf(),
    {
        MemRange { virt, phys, bytes }
    }

    pub fn virt(&self) -> (r: u64)
        ensures
            r == self.spec_virt(),
    {
        self.virt
    }

    pub fn phys(&self) -> (r: u64)
        ensures
            r == self.spec_phys(),
    {
        self.phys
    }

    pub fn bytes(&self) -> (r: u64)
        ensures
            r == self.spec_bytes(),
    {
        self.bytes
    }
}

/// Translation through a sequence of mappings; the first range holding the
/// address answers.
pub open spec fn spec_translate_in(maps: Seq<MemRange>, addr: u64) -> Option<u64>
    decreases maps.len(),
{
    if maps.len() == 0 {
        None
    } else if maps[0].spec_contains(addr) {
        Some(maps[0].spec_translate(addr))
    } else {
        spec_translate_in(maps.drop_first(), addr)
    }
}

/// Appending a range to mappings none of which holds `addr` makes the new
/// range alone decide the translation of `addr`.
pub proof fn lemma_translate_push_fresh(maps: Seq<MemRange>, range: MemRange, addr: u64)
    requires
        forall|i: int| 0 <= i < maps.len() ==> !(#[trigger] maps[i]).spec_contains(addr),
    ensures
        spec_translate_in(maps.push(range), addr) == if range.spec_contains(addr) {
            Some(range.spec_translate(addr))
        } else {
            None
        },
    decreases maps.len(),
{
    if maps.len() == 0 {
        assert(maps.push(range)[0] == range);
        assert(maps.push(range).drop_first() =~= Seq::<MemRange>::empty());
        assert(spec_translate_in(Seq::<MemRange>::empty(), addr) is None);
    } else {
        assert(maps.push(range)[0] == maps[0]);
        assert(maps.push(range).drop_first() =~= maps.drop_first().push(range));
        lemma_translate_push_fresh(maps.drop_first(), range, addr);
    }
}

/// Appending a range never changes the translation of an address some
/// existing range already resolves.
pub proof fn lemma_translate_push_preserves(maps: Seq<MemRange>, range: MemRange, addr: u64)
    requires
        spec_translate_in(maps, addr) is Some,
    ensures
        spec_translate_in(maps.push(range), addr) == spec_translate_in(maps, addr),
    decreases maps.len(),
{
    if maps.len() > 0 {
        assert(maps.push(range)[0] == maps[0]);
        assert(maps.push(range).drop_first() =~= maps.drop_first().push(range));
        if !maps[0].spec_contains(addr) {
            lemma_translate_push_preserves(maps.drop_first(), range, addr);
        }
    }
}

/// The page-table mapper and the two allocators behind one interface, as the
/// bring-up path consumes them. In the kernel these sit behind one global
/// lock; each call here is one such acquire-operate-release step.
pub struct MemoryServices {
    pub next_free_page: u64,
    pub next_free_frame: u64,
    pub mappings: Vec<MemRange>,
}

impl MemoryServices {
    pub open spec fn wf(self) -> bool {
        &&& self.next_free_page % 4096 == 0
        &&& self.next_free_frame % 4096 == 0
        &&& forall|i: int|
            0 <= i < self.mappings.len() ==> (#[trigger] self.mappings[i]).wf() && self.mappings[
                i
            ].spec_virt() + self.mappings[i].spec_bytes() <= self.next_free_page
    }

    /// Whether another whole page fits below the top of the address space
    /// with room for the cursor to move past it.
    pub open spec fn spec_can_allocate_page(self) -> bool {
        self.next_free_page + 4096 <= u64::MAX
    }

    /// Whether another whole frame fits below the top of the address space
    /// with room for the cursor to move past it.
    pub open spec fn spec_can_allocate_frame(self) -> bool {
        self.next_free_frame + 4096 <= u64::MAX
    }

    pub open spec fn spec_translate(self, addr: u64) -> Option<u64> {
        spec_translate_in(self.mappings@, addr)
    }

    /// A fresh service state: no mappings, pages handed out from `page_base`
    /// upward and frames from `frame_base` upward.
    pub fn new(page_base: u64, frame_base: u64) -> (r: Self)
        requires
            page_base % 4096 == 0,
            frame_base % 4096 == 0,
        ensures
            r.next_free_page == page_base,
            r.next_free_frame == frame_base,
            r.mappings@ =~= Seq::<MemRange>::empty(),
            r.wf(),
    {
        MemoryServices { next_free_page: page_base, next_free_frame: frame_base, mappings: Vec::new() }
    }

    /// The first virtual page no mapping uses, or nothing when the virtual
    /// address space is exhausted. The page stays unused until `map_to`
    /// claims it.
    pub fn search_first_unused_page(&self) -> (r: Option<u64>)
        requires
            self.wf(),
        ensures
            self.spec_can_allocate_page() ==> r == Some(self.next_free_page),
            !self.spec_can_allocate_page() ==> r is None,
    {
        if self.next_free_page <= u64::MAX - 4096 {
            Some(self.next_free_page)
        } else {
            None
        }
    }

    /// Hands out one physical frame, or nothing when physical memory is
    /// exhausted.
    pub fn allocate_frame(&mut self) -> (r: Option<u64>)
        requires
            old(self).wf(),
        ensures
            final(self).wf(),
            final(self).next_free_page == old(self).next_free_page,
            final(self).mappings == old(self).mappings,
            old(self).spec_can_allocate_frame() ==> r == Some(old(self).next_free_frame)
                && final(self).next_free_frame == old(self).next_free_frame + 4096,
            !old(self).spec_can_allocate_frame() ==> r is None && final(self).next_free_frame
                == old(self).next_free_frame,
    {
        if self.next_free_frame <= u64::MAX - 4096 {
            let frame = self.next_free_frame;
            self.next_free_frame = self.next_free_frame + 4096;
            Some(frame)
        } else {
            None
        }
    }

    /// Establishes a present mapping from the first unused page to `frame`.
    /// The new page aliases no earlier mapping, so its translation is decided
    /// by the new entry, and every earlier translation keeps its answer.
    pub fn map_to(&mut self, page: u64, frame: u64)
        requires
            old(self).wf(),
            old(self).spec_can_allocate_page(),
            page == old(self).next_free_page,
            frame % 4096 == 0,
            frame + 4096 <= u64::MAX as int + 1,
        ensures
            final(self).wf(),
            final(self).mappings@ == old(self).mappings@.push(
                MemRange { virt: page, phys: frame, bytes: 4096 },
            ),
            final(self).next_free_page == old(self).next_free_page + 4096,
            final(self).next_free_frame == old(self).next_free_frame,
            forall|addr: u64|
                page <= addr < page + 4096 ==> final(self).spec_translate(addr) == Some(
                    ((frame + (addr - page)) as u64),
                ),
            forall|addr: u64|
                old(self).spec_translate(addr) is Some ==> final(self).spec_translate(addr) == old(
                    self,
                ).spec_translate(addr),
    {
        let range = MemRange { virt: page, phys: frame, bytes: PAGE_BYTES };
        self.mappings.push(range);
        self.next_free_page = self.next_free_page + 4096;
        proof {
            let prior = old(self).mappings@;
            assert forall|addr: u64| page <= addr < page + 4096 implies self.spec_translate(addr)
                == Some(((frame + (addr - page)) as u64)) by {
                assert(forall|i: int|
                    0 <= i < prior.len() ==> !(#[trigger] prior[i]).spec_contains(addr));
                lemma_translate_push_fresh(prior, range, addr);
            }
            assert forall|addr: u64| old(self).spec_translate(addr) is Some implies self
                .spec_translate(addr) == old(self).spec_translate(addr) by {
                lemma_translate_push_preserves(prior, range, addr);
            }
        }
    }

    /// Translates a virtual address through the established mappings.
    pub fn translate_addr(&self, addr: u64) -> (r: Option<u64>)
        requires
            self.wf(),
        ensures
            r == self.spec_translate(addr),
    {
        proof {
            assert(self.mappings@.skip(0) =~= self.mappings@);
        }
        let mut i: usize = 0;
        while i < self.mappings.len()
            invariant
                i <= self.mappings.len(),
                self.wf(),
                spec_translate_in(self.mappings@, addr) == spec_translate_in(
                    self.mappings@.skip(i as int),
                    addr,
                ),
            decreases self.mappings.len() - i,
        {
            let range = self.mappings[i];
            if range.virt <= addr && addr - range.virt < range.bytes {
                return Some(range.phys + (addr - range.virt));
            }
            proof {
                assert(self.mappings@.skip(i as int).drop_first() =~= self.mappings@.skip(
                    i as int + 1,
                ));
            }
            i = i + 1;
        }
        None
    }
}

} // verus!
