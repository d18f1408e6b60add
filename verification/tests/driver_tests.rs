use kernel_core::driver::{
    enforce_root, inner_physmap, inner_physunmap, iopl, physalloc, physalloc3, physfree, physmap,
    physunmap, virttophys, CallerContext, Grant, Grants, Region, PHYSMAP_NO_CACHE, PHYSMAP_WRITE,
    USER_GRANT_OFFSET,
};
use kernel_core::entry::{NO_CACHE, NO_EXECUTE, PRESENT, USER_ACCESSIBLE, WRITABLE};
use kernel_core::error::Error;
use kernel_core::interrupt::InterruptStack;
use kernel_core::memory::{BumpAllocator, MemoryArea};
use kernel_core::paging::{ActivePageTable, Page, PhysicalAddress, VirtualAddress, PAGE_SIZE};

fn root() -> CallerContext {
    CallerContext { euid: 0, grants: Grants::new() }
}

fn user() -> CallerContext {
    CallerContext { euid: 1000, grants: Grants::new() }
}

fn allocator() -> BumpAllocator {
    let areas = vec![MemoryArea { base_addr: 0, length: 16 * PAGE_SIZE }];
    BumpAllocator::new(64 * PAGE_SIZE, 65 * PAGE_SIZE - 1, areas)
}

#[test]
fn enforce_root_distinguishes_the_three_cases() {
    assert_eq!(enforce_root(None), Err(Error::NoSuchProcess));
    assert_eq!(enforce_root(Some(&user())), Err(Error::PermissionDenied));
    assert_eq!(enforce_root(Some(&root())), Ok(()));
}

// A non-root caller is denied before any frame is consumed.
#[test]
fn physalloc_denied_consumes_no_frames() {
    let mut allocator = allocator();
    let free_before = allocator.free_frames();
    let caller = user();
    assert_eq!(
        physalloc(PAGE_SIZE, Some(&caller), &mut allocator),
        Err(Error::PermissionDenied)
    );
    assert_eq!(allocator.free_frames(), free_before);
    assert_eq!(
        physalloc(PAGE_SIZE, None, &mut allocator),
        Err(Error::NoSuchProcess)
    );
    assert_eq!(allocator.free_frames(), free_before);
}

#[test]
fn physalloc_returns_page_aligned_base() {
    let mut allocator = allocator();
    let caller = root();
    let base = physalloc(3 * PAGE_SIZE + 1, Some(&caller), &mut allocator).unwrap();
    assert_eq!(base % PAGE_SIZE, 0);
    assert_eq!(base, 0);
    // Four pages were taken: the next allocation starts after them.
    let next = physalloc(PAGE_SIZE, Some(&caller), &mut allocator).unwrap();
    assert_eq!(next, 4 * PAGE_SIZE);
}

#[test]
fn physalloc_out_of_memory() {
    let mut allocator = allocator();
    let caller = root();
    assert_eq!(
        physalloc(17 * PAGE_SIZE, Some(&caller), &mut allocator),
        Err(Error::OutOfMemory)
    );
}

#[test]
fn physalloc3_partial_updates_min_to_granted_bytes() {
    let areas = vec![MemoryArea { base_addr: 0, length: 6 * PAGE_SIZE }];
    let mut allocator = BumpAllocator::new(64 * PAGE_SIZE, 65 * PAGE_SIZE - 1, areas);
    let caller = root();
    // PARTIAL_ALLOC with the first strategy selector.
    let mut min = 4 * PAGE_SIZE;
    let base = physalloc3(
        10 * PAGE_SIZE,
        4 | 0x1_0000,
        &mut min,
        Some(&caller),
        &mut allocator,
    )
    .unwrap();
    assert_eq!(base, 0);
    assert_eq!(min, 6 * PAGE_SIZE);
}

#[test]
fn physalloc3_rejects_malformed_flags() {
    let mut allocator = allocator();
    let caller = root();
    let mut min = 0;
    // Both address-space flags at once.
    assert_eq!(
        physalloc3(PAGE_SIZE, 1 | 2, &mut min, Some(&caller), &mut allocator),
        Err(Error::InvalidArgument)
    );
    // A partial request without a strategy selector.
    assert_eq!(
        physalloc3(PAGE_SIZE, 4, &mut min, Some(&caller), &mut allocator),
        Err(Error::InvalidArgument)
    );
    // An unknown flag bit.
    assert_eq!(
        physalloc3(PAGE_SIZE, 8, &mut min, Some(&caller), &mut allocator),
        Err(Error::InvalidArgument)
    );
}

#[test]
fn physfree_is_a_documented_noop() {
    let mut allocator = allocator();
    let caller = root();
    let base = physalloc(PAGE_SIZE, Some(&caller), &mut allocator).unwrap();
    let free_before = allocator.free_frames();
    assert_eq!(physfree(base, PAGE_SIZE, Some(&caller), &mut allocator), Ok(0));
    // The bootstrap allocator never reclaims.
    assert_eq!(allocator.free_frames(), free_before);
    assert_eq!(
        physfree(base, PAGE_SIZE, Some(&user()), &mut allocator),
        Err(Error::PermissionDenied)
    );
}

// physmap on an address space with no existing grants returns the
// reserved grant base, with a one-frame grant and the requested caching.
#[test]
fn physmap_first_grant_lands_at_the_grant_base() {
    let mut caller = root();
    let address = physmap(0x1000, 0x1000, PHYSMAP_NO_CACHE, &mut caller).unwrap();
    assert_eq!(address, USER_GRANT_OFFSET);
    assert_eq!(caller.grants.len(), 1);
    let grant = caller.grants.get(0);
    assert_eq!(grant.start_address().get(), USER_GRANT_OFFSET);
    assert_eq!(grant.physical_address().get(), 0x1000);
    assert_eq!(grant.size(), PAGE_SIZE);
    assert_eq!(grant.flags(), NO_CACHE | PRESENT | USER_ACCESSIBLE | NO_EXECUTE);
}

#[test]
fn physmap_returns_the_unaligned_offset() {
    let mut caller = root();
    let address = physmap(0x1234, 0x10, PHYSMAP_WRITE, &mut caller).unwrap();
    assert_eq!(address, USER_GRANT_OFFSET + 0x234);
    let grant = caller.grants.get(0);
    assert_eq!(grant.physical_address().get(), 0x1000);
    assert_eq!(grant.size(), PAGE_SIZE);
    assert_eq!(
        grant.flags(),
        PRESENT | NO_EXECUTE | USER_ACCESSIBLE | WRITABLE
    );
}

#[test]
fn physmap_scans_first_fit_in_ascending_order() {
    let mut caller = root();
    let first = physmap(0x10000, PAGE_SIZE, 0, &mut caller).unwrap();
    let second = physmap(0x20000, PAGE_SIZE, 0, &mut caller).unwrap();
    assert_eq!(first, USER_GRANT_OFFSET);
    assert_eq!(second, USER_GRANT_OFFSET + PAGE_SIZE);
    assert_eq!(caller.grants.len(), 2);
}

#[test]
fn physmap_denied_for_non_root() {
    let mut caller = user();
    assert_eq!(
        physmap(0x1000, 0x1000, 0, &mut caller),
        Err(Error::PermissionDenied)
    );
    assert_eq!(caller.grants.len(), 0);
}

#[test]
fn physmap_of_nothing_is_a_noop() {
    let mut caller = root();
    assert_eq!(physmap(0x1000, 0, 0, &mut caller), Ok(0));
    assert_eq!(caller.grants.len(), 0);
}

// physunmap on an address never mapped fails with a bad address.
#[test]
fn physunmap_of_unmapped_address_is_a_bad_address() {
    let mut caller = root();
    assert_eq!(
        physunmap(USER_GRANT_OFFSET, &mut caller),
        Err(Error::BadAddress)
    );
}

#[test]
fn physunmap_removes_the_covering_grant() {
    let mut caller = root();
    let address = physmap(0x1000, 3 * PAGE_SIZE, 0, &mut caller).unwrap();
    assert_eq!(caller.grants.len(), 1);
    // Any address inside the grant finds it.
    assert_eq!(physunmap(address + PAGE_SIZE + 7, &mut caller), Ok(0));
    assert_eq!(caller.grants.len(), 0);
    assert_eq!(physunmap(address, &mut caller), Err(Error::BadAddress));
}

#[test]
fn physunmap_null_is_ignored() {
    let mut caller = root();
    assert_eq!(physunmap(0, &mut caller), Ok(0));
    let mut user_caller = user();
    assert_eq!(physunmap(0, &mut user_caller), Err(Error::PermissionDenied));
}

#[test]
fn inner_physmap_and_unmap_work_on_a_bare_grant_set() {
    let mut grants = Grants::new();
    let address = inner_physmap(0x5000, PAGE_SIZE, 0, &mut grants).unwrap();
    assert_eq!(address, USER_GRANT_OFFSET);
    assert_eq!(inner_physunmap(address, &mut grants), Ok(0));
    assert_eq!(
        inner_physunmap(address, &mut grants),
        Err(Error::BadAddress)
    );
}

#[test]
fn grants_contains_and_take_use_the_region_key() {
    let mut grants = Grants::new();
    inner_physmap(0x7000, PAGE_SIZE, 0, &mut grants).unwrap();
    let grant = grants
        .contains(VirtualAddress::new(USER_GRANT_OFFSET + 5))
        .expect("the grant covers its own range");
    let region = Region::from(&grant);
    assert_eq!(region.size, PAGE_SIZE);
    let taken: Option<Grant> = grants.take(&region);
    assert!(taken.is_some());
    assert!(grants.contains(VirtualAddress::new(USER_GRANT_OFFSET + 5)).is_none());
}

#[test]
fn iopl_sets_only_the_privilege_bits() {
    let mut stack = InterruptStack::default();
    stack.iret.rflags = 0xABCF;
    let caller = root();
    assert_eq!(iopl(3, &mut stack, Some(&caller)), Ok(0));
    assert_eq!(stack.iret.rflags, (0xABCF & !0x3000) | 0x3000);
    assert_eq!(iopl(0, &mut stack, Some(&caller)), Ok(0));
    assert_eq!(stack.iret.rflags, 0xABCF & !0x3000);
}

#[test]
fn iopl_rejects_bad_levels_and_callers() {
    let mut stack = InterruptStack::default();
    stack.iret.rflags = 7;
    let caller = root();
    assert_eq!(iopl(4, &mut stack, Some(&caller)), Err(Error::InvalidArgument));
    assert_eq!(iopl(1, &mut stack, Some(&user())), Err(Error::PermissionDenied));
    assert_eq!(iopl(1, &mut stack, None), Err(Error::NoSuchProcess));
    assert_eq!(stack.iret.rflags, 7);
}

#[test]
fn virttophys_walks_the_active_table() {
    let mut table = ActivePageTable::new(kernel_core::memory::Frame { number: 1 });
    table.map_to(
        Page { number: 5 },
        kernel_core::memory::Frame { number: 9 },
        PRESENT,
    );
    let caller = root();
    assert_eq!(
        virttophys(5 * PAGE_SIZE + 7, Some(&caller), &table),
        Ok(9 * PAGE_SIZE + 7)
    );
    assert_eq!(
        virttophys(6 * PAGE_SIZE, Some(&caller), &table),
        Err(Error::BadAddress)
    );
    assert_eq!(
        virttophys(5 * PAGE_SIZE, Some(&user()), &table),
        Err(Error::PermissionDenied)
    );
    let _ = PhysicalAddress::new(0);
}

#[test]
fn physalloc_of_nothing_is_out_of_memory() {
    let mut allocator = allocator();
    let caller = root();
    let free_before = allocator.free_frames();
    assert_eq!(physalloc(0, Some(&caller), &mut allocator), Err(Error::OutOfMemory));
    assert_eq!(allocator.free_frames(), free_before);
}

#[test]
fn physalloc3_partial_with_bad_minimum_is_invalid() {
    let mut allocator = allocator();
    let caller = root();
    let mut min = 0;
    // A partial request with a zero minimum.
    assert_eq!(
        physalloc3(PAGE_SIZE, 4 | 0x1_0000, &mut min, Some(&caller), &mut allocator),
        Err(Error::InvalidArgument)
    );
    // A partial request whose minimum exceeds the size.
    min = 2 * PAGE_SIZE;
    assert_eq!(
        physalloc3(PAGE_SIZE, 4 | 0x2_0000, &mut min, Some(&caller), &mut allocator),
        Err(Error::InvalidArgument)
    );
    assert_eq!(min, 2 * PAGE_SIZE);
}
