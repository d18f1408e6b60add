//! A single reserved virtual page used to transiently map an arbitrary
//! physical frame — typically a not-yet-linked page-table page — so it can
//! be initialized before being linked into the live tree. Exactly one frame
//! is mapped through it at a time; mapping while it is already in use is a
//! contract violation, excluded by precondition.

use vstd::prelude::*;
use crate::memory::Frame;
use crate::paging::{ActivePageTable, Page, VirtualAddress, PAGE_SIZE};

verus! {

/// The reserved page and nothing else: which frame shows through it is
/// recorded in the active table.
pub struct TemporaryPage {
    page: Page,
}

impl TemporaryPage {
    /// The number of the reserved page.
    pub closed spec fn spec_page(&self) -> usize {
        self.page.number
    }

    /// Reserve `page` as the temporary window.
    pub fn new(page: Page) -> (r: TemporaryPage)
        ensures
            r.spec_page() == page.number,
    {
        TemporaryPage { page }
    }

    /// The virtual address of the window.
    pub fn start_address(&self) -> (r: VirtualAddress)
        requires
            self.spec_page() * PAGE_SIZE <= usize::MAX,
        ensures
            r.0 == self.spec_page() * PAGE_SIZE,
    {
        self.page.start_address()
    }

    /// Map the window to `frame` in the active table and return the
    /// window's start address. The window must currently be unused.
    pub fn map(&mut self, frame: Frame, flags: u64, active_table: &mut ActivePageTable) -> (r:
        VirtualAddress)
        requires
            old(active_table).wf(),
            !old(active_table)@.contains_key(old(self).spec_page()),
            frame.number * PAGE_SIZE + PAGE_SIZE - 1 <= usize::MAX,
            old(self).spec_page() * PAGE_SIZE <= usize::MAX,
        ensures
            *final(self) == *old(self),
            final(active_table).wf(),
            final(active_table)@ == old(active_table)@.insert(
                old(self).spec_page(),
                (frame.number, flags),
            ),
            final(active_table).spec_p4_frame() == old(active_table).spec_p4_frame(),
            r.0 == old(self).spec_page() * PAGE_SIZE,
    {
        let page = Page { number: self.page.number };
        active_table.map_to(page, frame, flags);
        active_table.flush(Page { number: self.page.number });
        self.page.start_address()
    }

    /// Unmap the window, flushing the translation cache for that single
    /// page only. The window must currently be mapped.
    pub fn unmap(&mut self, active_table: &mut ActivePageTable)
        requires
            old(active_table).wf(),
            old(active_table)@.contains_key(old(self).spec_page()),
        ensures
            *final(self) == *old(self),
            final(active_table).wf(),
            final(active_table)@ == old(active_table)@.remove(old(self).spec_page()),
            final(active_table).spec_p4_frame() == old(active_table).spec_p4_frame(),
    {
        let _frame = active_table.unmap_return(Page { number: self.page.number });
        active_table.flush(Page { number: self.page.number });
    }
}

} // verus!
