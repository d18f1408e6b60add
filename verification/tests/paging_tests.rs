use kernel_core::entry::{PRESENT, WRITABLE};
use kernel_core::memory::Frame;
use kernel_core::paging::{
    ActivePageTable, InactivePageTable, Page, PageIter, PageTableType, PhysicalAddress,
    VirtualAddress, ENTRY_COUNT, PAGE_SIZE,
};
use kernel_core::temporary_page::TemporaryPage;

#[test]
fn addresses_keep_their_raw_value() {
    assert_eq!(PhysicalAddress::new(0x1234).get(), 0x1234);
    assert_eq!(VirtualAddress::new(0xFEDC).get(), 0xFEDC);
    assert_eq!(PAGE_SIZE, 4096);
    assert_eq!(ENTRY_COUNT, 512);
}

#[test]
fn page_indexes_split_the_page_number() {
    let page = Page::containing_address(VirtualAddress::new(0x8000_0000));
    assert_eq!(page.number, 0x8000_0000 / PAGE_SIZE);
    // number = 0x80000 = 0o2000000: p2 index 0o20, everything above zero.
    assert_eq!(page.p4_index(), 0);
    assert_eq!(page.p3_index(), 2);
    assert_eq!(page.p2_index(), 0);
    assert_eq!(page.p1_index(), 0);
    let deep = Page { number: (1 << 27) + (2 << 18) + (3 << 9) + 4 };
    assert_eq!(deep.p4_index(), 1);
    assert_eq!(deep.p3_index(), 2);
    assert_eq!(deep.p2_index(), 3);
    assert_eq!(deep.p1_index(), 4);
    assert_eq!(deep.start_address().get(), deep.number * PAGE_SIZE);
}

#[test]
fn page_range_is_inclusive_and_restartable() {
    let mut iter: PageIter = Page::range_inclusive(Page { number: 3 }, Page { number: 5 });
    assert_eq!(iter.next(), Some(Page { number: 3 }));
    assert_eq!(iter.next(), Some(Page { number: 4 }));
    assert_eq!(iter.next(), Some(Page { number: 5 }));
    assert_eq!(iter.next(), None);
    assert_eq!(iter.next(), None);
    let mut empty = Page::range_inclusive(Page { number: 5 }, Page { number: 3 });
    assert_eq!(empty.next(), None);
}

#[test]
fn active_table_translates_mapped_pages_only() {
    let mut table = ActivePageTable::new(Frame { number: 42 });
    assert_eq!(table.address(), 42 * PAGE_SIZE);
    assert!(table.translate(VirtualAddress::new(0x9000)).is_none());
    table.map_to(Page { number: 9 }, Frame { number: 77 }, PRESENT | WRITABLE);
    assert_eq!(
        table.translate_page(Page { number: 9 }),
        Some(Frame { number: 77 })
    );
    assert_eq!(
        table.translate(VirtualAddress::new(9 * PAGE_SIZE + 0x123)),
        Some(PhysicalAddress::new(77 * PAGE_SIZE + 0x123))
    );
    let freed = table.unmap_return(Page { number: 9 });
    assert_eq!(freed, Frame { number: 77 });
    assert!(table.translate_page(Page { number: 9 }).is_none());
}

#[test]
fn temporary_page_maps_one_frame_at_a_time() {
    let mut active = ActivePageTable::new(Frame { number: 1 });
    let mut temporary = TemporaryPage::new(Page { number: 0x1000 });
    assert_eq!(temporary.start_address().get(), 0x1000 * PAGE_SIZE);
    let window = temporary.map(Frame { number: 55 }, PRESENT | WRITABLE, &mut active);
    assert_eq!(window.get(), 0x1000 * PAGE_SIZE);
    assert_eq!(
        active.translate_page(Page { number: 0x1000 }),
        Some(Frame { number: 55 })
    );
    temporary.unmap(&mut active);
    assert!(active.translate_page(Page { number: 0x1000 }).is_none());
}

#[test]
fn switch_returns_the_previously_active_table() {
    let mut active = ActivePageTable::new(Frame { number: 10 });
    active.map_to(Page { number: 1 }, Frame { number: 2 }, PRESENT);
    let incoming = InactivePageTable::from_address(20 * PAGE_SIZE);
    let old = active.switch(incoming);
    assert_eq!(old.address(), 10 * PAGE_SIZE);
    assert_eq!(active.address(), 20 * PAGE_SIZE);
    // The new address space has no mappings; the old one kept its own.
    assert!(active.translate_page(Page { number: 1 }).is_none());
}

#[test]
fn inactive_table_is_prepared_through_the_temporary_page() {
    let mut active = ActivePageTable::new(Frame { number: 3 });
    active.map_to(Page { number: 8 }, Frame { number: 9 }, PRESENT);
    let mut temporary = TemporaryPage::new(Page { number: 0x2000 });
    let inactive = InactivePageTable::new(Frame { number: 30 }, &mut active, &mut temporary);
    assert_eq!(inactive.address(), 30 * PAGE_SIZE);
    // Preparing the new table left the active one exactly as it was.
    assert_eq!(
        active.translate_page(Page { number: 8 }),
        Some(Frame { number: 9 })
    );
    assert!(active.translate_page(Page { number: 0x2000 }).is_none());
}

#[test]
fn flushes_do_not_change_the_mapping() {
    let mut table = ActivePageTable::new(Frame { number: 4 });
    table.map_to(Page { number: 2 }, Frame { number: 6 }, PRESENT);
    table.flush(Page { number: 2 });
    table.flush_all();
    assert_eq!(
        table.translate_page(Page { number: 2 }),
        Some(Frame { number: 6 })
    );
    let _ = PageTableType::User;
    let _ = PageTableType::Kernel;
}

#[test]
fn inactive_table_is_populated_through_the_temporary_page() {
    let mut active = ActivePageTable::new(Frame { number: 3 });
    active.map_to(Page { number: 8 }, Frame { number: 9 }, PRESENT);
    let mut temporary = TemporaryPage::new(Page { number: 0x2000 });
    let mut inactive = InactivePageTable::new(Frame { number: 30 }, &mut active, &mut temporary);
    inactive.map_to(
        Page { number: 100 },
        Frame { number: 200 },
        PRESENT | WRITABLE,
        &mut active,
        &mut temporary,
    );
    // The active table is untouched; the new space carries the mapping
    // and exposes it once switched to.
    assert!(active.translate_page(Page { number: 100 }).is_none());
    let old = active.switch(inactive);
    assert_eq!(
        active.translate_page(Page { number: 100 }),
        Some(Frame { number: 200 })
    );
    assert_eq!(old.address(), 3 * PAGE_SIZE);
}
