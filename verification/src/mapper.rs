//! The mapping view of an address space: which virtual page is backed by
//! which physical frame, under which permission flags. The hardware walk
//! through the recursive top-level mapping is replaced by an explicit
//! page-indexed lookup table, preserving the next-level-address-by-
//! construction property without relying on a fixed virtual offset.

use vstd::prelude::*;
use crate::memory::Frame;
use crate::paging::{Page, PhysicalAddress, VirtualAddress, PAGE_SIZE};

verus! {

/// One installed translation: a page number, its backing frame number, and
/// the permission flags of the leaf entry.
#[derive(Clone, Copy, Debug, PartialEq, Eq, Structural)]
pub struct MappingRecord {
    pub page: usize,
    pub frame: usize,
    pub flags: u64,
}

/// The partial map a record list denotes, later records winning (the
/// mapper keeps page numbers unique, so order never matters).
pub open spec fn mappings_map(s: Seq<MappingRecord>) -> Map<usize, (usize, u64)>
    decreases s.len(),
{
    if s.len() == 0 {
        Map::empty()
    } else {
        mappings_map(s.drop_last()).insert(s.last().page, (s.last().frame, s.last().flags))
    }
}

/// No two records cover the same page.
pub open spec fn pages_unique(s: Seq<MappingRecord>) -> bool {
    forall|i: int, j: int|
        0 <= i < j < s.len() ==> (#[trigger] s[i]).page != (#[trigger] s[j]).page
}

proof fn lemma_mappings_map_props(s: Seq<MappingRecord>)
    ensures
        forall|i: int|
            0 <= i < s.len() ==> mappings_map(s).contains_key((#[trigger] s[i]).page),
        forall|p: usize|
            #[trigger] mappings_map(s).contains_key(p) ==> exists|i: int|
                0 <= i < s.len() && (#[trigger] s[i]).page == p,
        pages_unique(s) ==> forall|i: int|
            0 <= i < s.len() ==> mappings_map(s)[(#[trigger] s[i]).page] == (
                s[i].frame,
                s[i].flags,
            ),
    decreases s.len(),
{
    if s.len() > 0 {
        lemma_mappings_map_props(s.drop_last());
        assert(forall|i: int| 0 <= i < s.len() - 1 ==> s.drop_last()[i] == (#[trigger] s[i]));
        assert forall|i: int|
            0 <= i < s.len() implies mappings_map(s).contains_key((#[trigger] s[i]).page) by {
            if i < s.len() - 1 {
                assert(mappings_map(s.drop_last()).contains_key(s.drop_last()[i].page));
            }
        }
        assert forall|p: usize| #[trigger]
            mappings_map(s).contains_key(p) implies exists|i: int|
            0 <= i < s.len() && (#[trigger] s[i]).page == p by {
            if p == s.last().page {
                assert(s[s.len() - 1].page == p);
            } else {
                assert(mappings_map(s.drop_last()).contains_key(p));
                let i = choose|i: int|
                    0 <= i < s.drop_last().len() && (#[trigger] s.drop_last()[i]).page == p;
                assert(s[i].page == p);
            }
        }
        if pages_unique(s) {
            assert(pages_unique(s.drop_last()));
            assert forall|i: int| 0 <= i < s.len() implies mappings_map(s)[(#[trigger] s[i]).page]
                == (s[i].frame, s[i].flags) by {
                if i < s.len() - 1 {
                    assert(s[i].page != s[s.len() - 1].page);
                    assert(s.drop_last()[i] == s[i]);
                }
            }
        }
    }
}

proof fn lemma_mappings_map_remove(s: Seq<MappingRecord>, i: int)
    requires
        0 <= i < s.len(),
        pages_unique(s),
    ensures
        mappings_map(s.remove(i)) =~= mappings_map(s).remove(s[i].page),
        pages_unique(s.remove(i)),
    decreases s.len(),
{
    lemma_mappings_map_props(s);
    lemma_mappings_map_props(s.remove(i));
    lemma_mappings_map_props(s.drop_last());
    if i == s.len() - 1 {
        assert(s.remove(i) =~= s.drop_last());
        assert(!mappings_map(s.drop_last()).contains_key(s[i].page));
    } else {
        assert(s.remove(i).drop_last() =~= s.drop_last().remove(i));
        assert(s.remove(i).last() == s.last());
        lemma_mappings_map_remove(s.drop_last(), i);
    }
}

/// The live page-to-frame mapping of one address space.
pub struct Mapper {
    records: Vec<MappingRecord>,
}

impl Mapper {
    /// The partial map from page number to backing frame number and flags.
    pub closed spec fn view(&self) -> Map<usize, (usize, u64)> {
        mappings_map(self.records@)
    }

    /// Pages are unique and every mapped frame's last byte fits the
    /// address space.
    pub closed spec fn wf(&self) -> bool {
        &&& pages_unique(self.records@)
        &&& forall|i: int|
            0 <= i < self.records@.len() ==> (#[trigger] self.records@[i]).frame * PAGE_SIZE
                + PAGE_SIZE - 1 <= usize::MAX
    }

    /// An empty mapping.
    pub fn new() -> (r: Self)
        ensures
            r.wf(),
            r@ == Map::<usize, (usize, u64)>::empty(),
    {
        Mapper { records: Vec::new() }
    }

    /// The frame backing `page`, or `None` when the page is unmapped.
    pub fn translate_page(&self, page: Page) -> (r: Option<Frame>)
        requires
            self.wf(),
        ensures
            self@.contains_key(page.number) ==> r == Some(Frame {
                number: self@[page.number].0,
            }),
            !self@.contains_key(page.number) ==> r is None,
    {
        proof {
            lemma_mappings_map_props(self.records@);
        }
        let n = self.records.len();
        let mut i: usize = 0;
        while i < n
            invariant
                0 <= i <= n,
                n == self.records@.len(),
                self.wf(),
                forall|j: int| 0 <= j < i ==> (#[trigger] self.records@[j]).page != page.number,
            decreases n - i,
        {
            let record = self.records[i];
            if record.page == page.number {
                proof {
                    lemma_mappings_map_props(self.records@);
                }
                return Some(Frame { number: record.frame });
            }
            i += 1;
        }
        proof {
            lemma_mappings_map_props(self.records@);
        }
        None
    }

    /// The flags of the mapping covering `page`, or `None` when unmapped.
    pub fn translate_page_flags(&self, page: Page) -> (r: Option<u64>)
        requires
            self.wf(),
        ensures
            self@.contains_key(page.number) ==> r == Some(self@[page.number].1),
            !self@.contains_key(page.number) ==> r is None,
    {
        proof {
            lemma_mappings_map_props(self.records@);
        }
        let n = self.records.len();
        let mut i: usize = 0;
        while i < n
            invariant
                0 <= i <= n,
                n == self.records@.len(),
                self.wf(),
                forall|j: int| 0 <= j < i ==> (#[trigger] self.records@[j]).page != page.number,
            decreases n - i,
        {
            let record = self.records[i];
            if record.page == page.number {
                proof {
                    lemma_mappings_map_props(self.records@);
                }
                return Some(record.flags);
            }
            i += 1;
        }
        proof {
            lemma_mappings_map_props(self.records@);
        }
        None
    }

    /// The physical address backing a virtual address, or `None` when its
    /// page is unmapped.
    pub fn translate(&self, virtual_address: VirtualAddress) -> (r: Option<PhysicalAddress>)
        requires
            self.wf(),
        ensures
            ({
                let page = virtual_address.0 / PAGE_SIZE;
                let offset = virtual_address.0 % PAGE_SIZE;
                if self@.contains_key(page) {
                    r == Some(PhysicalAddress((self@[page].0 * PAGE_SIZE + offset) as usize))
                } else {
                    r is None
                }
            }),
    {
        let offset = virtual_address.get() % PAGE_SIZE;
        let page = Page::containing_address(virtual_address);
        proof {
            lemma_mappings_map_props(self.records@);
            if self@.contains_key(page.number) {
                let i = choose|i: int|
                    0 <= i < self.records@.len() && (#[trigger] self.records@[i]).page
                        == page.number;
                assert(self.records@[i].frame * PAGE_SIZE + PAGE_SIZE - 1 <= usize::MAX);
            }
        }
        match self.translate_page(page) {
            Some(frame) => Some(PhysicalAddress::new(frame.number * PAGE_SIZE + offset)),
            None => None,
        }
    }

    /// Install a mapping from `page` to `frame`. The page must be unmapped:
    /// mapping over a live translation is a contract violation.
    pub fn map_to(&mut self, page: Page, frame: Frame, flags: u64)
        requires
            old(self).wf(),
            !old(self)@.contains_key(page.number),
            frame.number * PAGE_SIZE + PAGE_SIZE - 1 <= usize::MAX,
        ensures
            final(self).wf(),
            final(self)@ == old(self)@.insert(page.number, (frame.number, flags)),
    {
        let record = MappingRecord { page: page.number, frame: frame.number, flags };
        let ghost pre = self.records@;
        self.records.push(record);
        proof {
            lemma_mappings_map_props(pre);
            assert(self.records@.drop_last() =~= pre);
            assert(forall|j: int| 0 <= j < pre.len() ==> (#[trigger] pre[j]).page != page.number);
        }
    }

    /// Remove the mapping covering `page` and hand its frame back. The page
    /// must be mapped: unmapping an absent translation is a contract
    /// violation.
    pub fn unmap_return(&mut self, page: Page) -> (r: Frame)
        requires
            old(self).wf(),
            old(self)@.contains_key(page.number),
        ensures
            final(self).wf(),
            final(self)@ == old(self)@.remove(page.number),
            r.number == old(self)@[page.number].0,
    {
        let ghost orig = self.records@;
        proof {
            lemma_mappings_map_props(orig);
        }
        let n = self.records.len();
        let mut i: usize = 0;
        while i < n
            invariant
                0 <= i <= n,
                n == orig.len(),
                orig == old(self).records@,
                self.records@ == orig,
                self.wf(),
                self@.contains_key(page.number),
                forall|j: int| 0 <= j < i ==> (#[trigger] orig[j]).page != page.number,
            decreases n - i,
        {
            let record = self.records[i];
            if record.page == page.number {
                let removed = self.records.remove(i);
                proof {
                    lemma_mappings_map_props(orig);
                    lemma_mappings_map_remove(orig, i as int);
                    assert(orig[i as int] == removed);
                    assert(mappings_map(orig)[orig[i as int].page] == (
                        removed.frame,
                        removed.flags,
                    ));
                }
                return Frame { number: removed.frame };
            }
            i += 1;
        }
        proof {
            lemma_mappings_map_props(orig);
            assert(false);
        }
        unreached()
    }
}

} // verus!
