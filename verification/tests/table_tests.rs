use kernel_core::entry::{PRESENT, USER_ACCESSIBLE, WRITABLE};
use kernel_core::memory::{BumpAllocator, MemoryArea};
use kernel_core::paging::{ENTRY_COUNT, PAGE_SIZE};
use kernel_core::table::{Level4, Table};

fn allocator() -> BumpAllocator {
    let areas = vec![MemoryArea { base_addr: 0x10_0000, length: 32 * PAGE_SIZE }];
    BumpAllocator::new(0, PAGE_SIZE - 1, areas)
}

fn present_entries(table: &Table<Level4>) -> u64 {
    let mut count = 0;
    let mut i = 0;
    while i < ENTRY_COUNT {
        if table.entry(i).flags() & PRESENT != 0 {
            count += 1;
        }
        i += 1;
    }
    count
}

#[test]
fn zeroed_table_is_unused() {
    let table: Table<Level4> = Table::zeroed();
    assert!(table.is_unused());
    assert_eq!(table.entry_count(), 0);
    assert_eq!(present_entries(&table), 0);
}

#[test]
fn next_table_create_links_a_fresh_zeroed_child() {
    let mut allocator = allocator();
    let mut table: Table<Level4> = Table::zeroed();
    let (frame, fresh) = table.next_table_create(7, &mut allocator).unwrap();
    let child = fresh.expect("an empty slot must produce a fresh table");
    assert!(child.is_unused());
    assert_eq!(table.entry_count(), 1);
    assert_eq!(
        table.entry(7).flags(),
        PRESENT | WRITABLE | USER_ACCESSIBLE
    );
    assert_eq!(table.entry(7).address().get(), frame.number * PAGE_SIZE);
    assert_eq!(frame.number, 0x10_0000 / PAGE_SIZE);
}

#[test]
fn next_table_create_on_existing_child_changes_nothing() {
    let mut allocator = allocator();
    let mut table: Table<Level4> = Table::zeroed();
    let (first, fresh) = table.next_table_create(3, &mut allocator).unwrap();
    assert!(fresh.is_some());
    let (again, fresh2) = table.next_table_create(3, &mut allocator).unwrap();
    assert!(fresh2.is_none());
    assert_eq!(first, again);
    assert_eq!(table.entry_count(), 1);
}

#[test]
fn next_table_create_out_of_memory() {
    let areas = vec![MemoryArea { base_addr: 0, length: PAGE_SIZE }];
    // The only frame is the kernel's own.
    let mut allocator = BumpAllocator::new(0, PAGE_SIZE - 1, areas);
    let mut table: Table<Level4> = Table::zeroed();
    assert!(matches!(
        table.next_table_create(0, &mut allocator),
        Err(kernel_core::error::Error::OutOfMemory)
    ));
}

// The live-entry counter always equals the number of PRESENT entries,
// through any sequence of creations and explicit removals.
#[test]
fn counter_equals_present_entries_through_create_and_remove() {
    let mut allocator = allocator();
    let mut table: Table<Level4> = Table::zeroed();
    table.next_table_create(0, &mut allocator).unwrap();
    table.next_table_create(100, &mut allocator).unwrap();
    table.next_table_create(511, &mut allocator).unwrap();
    assert_eq!(table.entry_count(), 3);
    assert_eq!(present_entries(&table), 3);
    table.clear_entry(100);
    assert_eq!(table.entry_count(), 2);
    assert_eq!(present_entries(&table), 2);
    table.next_table_create(100, &mut allocator).unwrap();
    table.next_table_create(200, &mut allocator).unwrap();
    table.clear_entry(0);
    assert_eq!(table.entry_count(), 3);
    assert_eq!(present_entries(&table), 3);
    assert!(!table.is_unused());
    table.clear_entry(100);
    table.clear_entry(200);
    table.clear_entry(511);
    assert_eq!(table.entry_count(), 0);
    assert_eq!(present_entries(&table), 0);
    assert!(table.is_unused());
}

#[test]
fn counter_lives_in_the_first_entry_of_the_table() {
    let mut allocator = allocator();
    let mut table: Table<Level4> = Table::zeroed();
    // Creating the child in slot 0 stores both the mapping and the
    // counter in the same 64-bit entry.
    table.next_table_create(0, &mut allocator).unwrap();
    assert_eq!(table.entry(0).counter_bits(), 1);
    assert_eq!(table.entry(0).flags(), PRESENT | WRITABLE | USER_ACCESSIBLE);
}

#[test]
fn zero_resets_table_and_counter() {
    let mut allocator = allocator();
    let mut table: Table<Level4> = Table::zeroed();
    table.next_table_create(9, &mut allocator).unwrap();
    table.zero();
    assert!(table.is_unused());
    assert_eq!(present_entries(&table), 0);
}

#[test]
fn next_table_address_uses_the_recursive_mapping() {
    let mut allocator = allocator();
    let mut table: Table<Level4> = Table::zeroed();
    let own_address = 0xFFFF_FF7F_BFDF_E000usize;
    assert_eq!(table.next_table_address(own_address, 5), None);
    table.next_table_create(5, &mut allocator).unwrap();
    assert_eq!(
        table.next_table_address(own_address, 5),
        Some((own_address << 9) | (5 << 12))
    );
    // An absent slot never yields a child address.
    assert_eq!(table.next_table_address(own_address, 4), None);
}

#[test]
fn entry_counter_increment_and_decrement() {
    let mut table: Table<Level4> = Table::zeroed();
    table.increment_entry_count();
    table.increment_entry_count();
    assert_eq!(table.entry_count(), 2);
    table.decrement_entry_count();
    assert_eq!(table.entry_count(), 1);
    table.set_entry_count(0);
    assert_eq!(table.entry_count(), 0);
}
