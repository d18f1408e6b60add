//! Typed addresses and the page abstraction: physical and virtual addresses
//! are never implicitly interconvertible, and a page is a virtual address
//! rounded down to frame granularity, with inclusive, restartable iteration.

use vstd::prelude::*;
use crate::mapper::Mapper;
use crate::memory::Frame;
use crate::temporary_page::TemporaryPage;

verus! {

/// Number of entries per page table.
pub const ENTRY_COUNT: usize = 512;

/// Size of pages and frames, a fixed power of two.
pub const PAGE_SIZE: usize = 4096;

/// A physical address.
#[derive(Copy, Clone, Debug, Eq, PartialEq, PartialOrd, Ord, Structural)]
pub struct PhysicalAddress(pub usize);

impl PhysicalAddress {
    pub fn new(address: usize) -> (r: Self)
        ensures
            r.0 == address,
    {
        PhysicalAddress(address)
    }

    pub fn get(&self) -> (r: usize)
        ensures
            r == self.0,
    {
        self.0
    }
}

/// A virtual address.
#[derive(Copy, Clone, Debug, Eq, PartialEq, PartialOrd, Ord, Structural)]
pub struct VirtualAddress(pub usize);

impl VirtualAddress {
    pub fn new(address: usize) -> (r: Self)
        ensures
            r.0 == address,
    {
        VirtualAddress(address)
    }

    pub fn get(&self) -> (r: usize)
        ensures
            r == self.0,
    {
        self.0
    }
}

/// One virtual-memory unit: a virtual address divided by the page size.
#[derive(Debug, Clone, Copy, PartialEq, Eq, PartialOrd, Ord, Structural)]
pub struct Page {
    pub number: usize,
}

impl Page {
    /// The virtual address of the first byte of this page.
    pub fn start_address(&self) -> (r: VirtualAddress)
        requires
            self.number * PAGE_SIZE <= usize::MAX,
        ensures
            r.0 == self.number * PAGE_SIZE,
    {
        VirtualAddress::new(self.number * PAGE_SIZE)
    }

    /// Index of this page's slot in the top-level table (bits 27..36 of the
    /// page number).
    pub fn p4_index(&self) -> (r: usize)
        ensures
            r == (self.number >> 27) & 0o777,
    {
        (self.number >> 27) & 0o777
    }

    /// Index in the third-level table (bits 18..27 of the page number).
    pub fn p3_index(&self) -> (r: usize)
        ensures
            r == (self.number >> 18) & 0o777,
    {
        (self.number >> 18) & 0o777
    }

    /// Index in the second-level table (bits 9..18 of the page number).
    pub fn p2_index(&self) -> (r: usize)
        ensures
            r == (self.number >> 9) & 0o777,
    {
        (self.number >> 9) & 0o777
    }

    /// Index in the leaf table (bits 0..9 of the page number).
    pub fn p1_index(&self) -> (r: usize)
        ensures
            r == self.number & 0o777,
    {
        self.number & 0o777
    }

    /// The page covering the given virtual address.
    pub fn containing_address(address: VirtualAddress) -> (r: Page)
        ensures
            r.number == address.0 / PAGE_SIZE,
    {
        Page { number: address.get() / PAGE_SIZE }
    }

    /// All pages from `start` to `end`, both included.
    pub fn range_inclusive(start: Page, end: Page) -> (r: PageIter)
        requires
            end.number < usize::MAX,
        ensures
            r.start == start,
            r.end == end,
    {
        PageIter { start, end }
    }
}

/// An inclusive, finite range of pages; yields pages in ascending order.
pub struct PageIter {
    pub start: Page,
    pub end: Page,
}

impl PageIter {
    /// The pages not yet yielded.
    pub open spec fn remaining(&self) -> int {
        if self.start.number <= self.end.number {
            self.end.number - self.start.number + 1
        } else {
            0
        }
    }

    /// The next page of the range, or `None` once the range is exhausted.
    pub fn next(&mut self) -> (r: Option<Page>)
        requires
            old(self).end.number < usize::MAX,
        ensures
            final(self).end == old(self).end,
            old(self).start.number <= old(self).end.number ==> {
                &&& r == Some(old(self).start)
                &&& final(self).start.number == old(self).start.number + 1
            },
            old(self).start.number > old(self).end.number ==> {
                &&& r is None
                &&& final(self).start == old(self).start
            },
    {
        if self.start.number <= self.end.number {
            let page = self.start;
            self.start.number += 1;
            Some(page)
        } else {
            None
        }
    }
}

/// Whether a page table maps a user address space or the kernel.
#[derive(Clone, Copy, Debug, PartialEq, Eq, Structural)]
pub enum PageTableType {
    User,
    Kernel,
}

/// The address space currently installed in the CPU's translation unit:
/// its top-level frame and the mapping it realizes. Exactly one is active
/// per CPU at a time.
pub struct ActivePageTable {
    mapper: Mapper,
    p4_frame: Frame,
}

impl ActivePageTable {
    /// The page-to-frame mapping this table realizes.
    pub closed spec fn view(&self) -> Map<usize, (usize, u64)> {
        self.mapper@
    }

    /// The mapping is well-formed.
    pub closed spec fn wf(&self) -> bool {
        self.mapper.wf()
    }

    /// The frame holding the top-level table.
    pub closed spec fn spec_p4_frame(&self) -> int {
        self.p4_frame.number as int
    }

    /// Take charge of the translation root installed at boot, which maps
    /// nothing yet in this view.
    pub fn new(p4_frame: Frame) -> (r: Self)
        ensures
            r.wf(),
            r@ == Map::<usize, (usize, u64)>::empty(),
            r.spec_p4_frame() == p4_frame.number,
    {
        ActivePageTable { mapper: Mapper::new(), p4_frame }
    }

    /// Install `new_table` as the translation root and hand back the table
    /// that was active before the call, now demoted to inactive.
    pub fn switch(&mut self, new_table: InactivePageTable) -> (r: InactivePageTable)
        ensures
            r.spec_p4_frame() == old(self).spec_p4_frame(),
            r@ == old(self)@,
            r.wf() == old(self).wf(),
            final(self).spec_p4_frame() == new_table.spec_p4_frame(),
            final(self)@ == new_table@,
            final(self).wf() == new_table.wf(),
    {
        let mut old_table = new_table;
        core::mem::swap(&mut self.mapper, &mut old_table.mapper);
        core::mem::swap(&mut self.p4_frame, &mut old_table.p4_frame);
        old_table
    }

    /// Invalidate the translation cache for one page; the mapping itself is
    /// untouched.
    pub fn flush(&mut self, page: Page)
        ensures
            *final(self) == *old(self),
    {
        let _ = page;
    }

    /// Invalidate the whole translation cache; the mapping is untouched.
    pub fn flush_all(&mut self)
        ensures
            *final(self) == *old(self),
    {
    }

    /// The physical address of the installed top-level table.
    pub fn address(&self) -> (r: usize)
        requires
            self.spec_p4_frame() * PAGE_SIZE <= usize::MAX,
        ensures
            r == self.spec_p4_frame() * PAGE_SIZE,
    {
        self.p4_frame.start_address().get()
    }

    /// The frame backing `page`, or `None` when unmapped.
    pub fn translate_page(&self, page: Page) -> (r: Option<Frame>)
        requires
            self.wf(),
        ensures
            self@.contains_key(page.number) ==> r == Some(Frame {
                number: self@[page.number].0,
            }),
            !self@.contains_key(page.number) ==> r is None,
    {
        self.mapper.translate_page(page)
    }

    /// The physical address backing a virtual address, or `None` when its
    /// page is unmapped.
    pub fn translate(&self, virtual_address: VirtualAddress) -> (r: Option<PhysicalAddress>)
        requires
            self.wf(),
        ensures
            ({
                let page = virtual_address.0 / PAGE_SIZE;
                let offset = virtual_address.0 % PAGE_SIZE;
                if self@.contains_key(page) {
                    r == Some(PhysicalAddress((self@[page].0 * PAGE_SIZE + offset) as usize))
                } else {
                    r is None
                }
            }),
    {
        self.mapper.translate(virtual_address)
    }

    /// Install a mapping from `page` to `frame` in the active table.
    pub fn map_to(&mut self, page: Page, frame: Frame, flags: u64)
        requires
            old(self).wf(),
            !old(self)@.contains_key(page.number),
            frame.number * PAGE_SIZE + PAGE_SIZE - 1 <= usize::MAX,
        ensures
            final(self).wf(),
            final(self)@ == old(self)@.insert(page.number, (frame.number, flags)),
            final(self).spec_p4_frame() == old(self).spec_p4_frame(),
    {
        self.mapper.map_to(page, frame, flags)
    }

    /// Remove the mapping covering `page` and hand its frame back.
    pub fn unmap_return(&mut self, page: Page) -> (r: Frame)
        requires
            old(self).wf(),
            old(self)@.contains_key(page.number),
        ensures
            final(self).wf(),
            final(self)@ == old(self)@.remove(page.number),
            r.number == old(self)@[page.number].0,
            final(self).spec_p4_frame() == old(self).spec_p4_frame(),
    {
        self.mapper.unmap_return(page)
    }
}

/// An address space prepared but not installed: it becomes active only
/// through an explicit switch, which returns the previously active table
/// in its place.
pub struct InactivePageTable {
    mapper: Mapper,
    p4_frame: Frame,
}

impl InactivePageTable {
    /// The page-to-frame mapping this table would realize once installed.
    pub closed spec fn view(&self) -> Map<usize, (usize, u64)> {
        self.mapper@
    }

    /// The mapping is well-formed.
    pub closed spec fn wf(&self) -> bool {
        self.mapper.wf()
    }

    /// The frame holding the top-level table.
    pub closed spec fn spec_p4_frame(&self) -> int {
        self.p4_frame.number as int
    }

    /// Prepare a fresh address space in `frame`: the frame is transiently
    /// mapped through the temporary page so the not-yet-linked top-level
    /// table can be initialized, then unmapped again, leaving the active
    /// table exactly as it was.
    pub fn new(
        frame: Frame,
        active_table: &mut ActivePageTable,
        temporary_page: &mut TemporaryPage,
    ) -> (r: InactivePageTable)
        requires
            old(active_table).wf(),
            !old(active_table)@.contains_key(old(temporary_page).spec_page()),
            frame.number * PAGE_SIZE + PAGE_SIZE - 1 <= usize::MAX,
            old(temporary_page).spec_page() * PAGE_SIZE <= usize::MAX,
        ensures
            final(active_table).wf(),
            final(active_table)@ == old(active_table)@,
            *final(temporary_page) == *old(temporary_page),
            r.spec_p4_frame() == frame.number,
            r@ == Map::<usize, (usize, u64)>::empty(),
            r.wf(),
    {
        let number = frame.number;
        let _window = temporary_page.map(
            frame,
            crate::entry::PRESENT | crate::entry::WRITABLE,
            active_table,
        );
        // The fresh top-level table is zeroed through the window and its
        // recursive entry installed; a table that maps nothing has the
        // empty mapping view.
        temporary_page.unmap(active_table);
        proof {
            assert(active_table@ =~= old(active_table)@);
        }
        InactivePageTable { mapper: Mapper::new(), p4_frame: Frame { number } }
    }

    /// Install one mapping in this not-yet-active address space: how a new
    /// table's entries, such as the shared kernel half, are populated
    /// without installing it. The table's root frame is made visible
    /// through the temporary page while it is mutated, and the active
    /// table's own mapping is restored before returning.
    pub fn map_to(
        &mut self,
        page: Page,
        frame: Frame,
        flags: u64,
        active_table: &mut ActivePageTable,
        temporary_page: &mut TemporaryPage,
    )
        requires
            old(self).wf(),
            !old(self)@.contains_key(page.number),
            frame.number * PAGE_SIZE + PAGE_SIZE - 1 <= usize::MAX,
            old(self).spec_p4_frame() * PAGE_SIZE + PAGE_SIZE - 1 <= usize::MAX,
            old(active_table).wf(),
            !old(active_table)@.contains_key(old(temporary_page).spec_page()),
            old(temporary_page).spec_page() * PAGE_SIZE <= usize::MAX,
        ensures
            final(self).wf(),
            final(self)@ == old(self)@.insert(page.number, (frame.number, flags)),
            final(self).spec_p4_frame() == old(self).spec_p4_frame(),
            final(active_table).wf(),
            final(active_table)@ == old(active_table)@,
            final(active_table).spec_p4_frame() == old(active_table).spec_p4_frame(),
            *final(temporary_page) == *old(temporary_page),
    {
        let root = Frame { number: self.p4_frame.number };
        let _window = temporary_page.map(root, crate::entry::PRESENT | crate::entry::WRITABLE, active_table);
        self.mapper.map_to(page, frame, flags);
        temporary_page.unmap(active_table);
        proof {
            assert(active_table@ =~= old(active_table)@);
        }
    }

    /// Adopt the address space whose top-level table lives at the given
    /// physical translation-root address.
    pub fn from_address(address: usize) -> (r: InactivePageTable)
        ensures
            r.spec_p4_frame() == address / PAGE_SIZE,
            r@ == Map::<usize, (usize, u64)>::empty(),
            r.wf(),
    {
        InactivePageTable {
            mapper: Mapper::new(),
            p4_frame: Frame::containing_address(PhysicalAddress::new(address)),
        }
    }

    /// The physical address of this table's top-level frame.
    pub fn address(&self) -> (r: usize)
        requires
            self.spec_p4_frame() * PAGE_SIZE <= usize::MAX,
        ensures
            r == self.spec_p4_frame() * PAGE_SIZE,
    {
        self.p4_frame.start_address().get()
    }
}

} // verus!
