use kernel_core::entry::{
    Entry, ADDRESS_MASK, COUNTER_MASK, HUGE_PAGE, NO_CACHE, NO_EXECUTE, PRESENT, USER_ACCESSIBLE,
    WRITABLE,
};
use kernel_core::memory::Frame;
use kernel_core::paging::PAGE_SIZE;

#[test]
fn entry_has_required_arch_alignment() {
    assert!(
        core::mem::align_of::<Entry>() >= core::mem::align_of::<u64>(),
        "alignment of Entry is less than the required alignment of u64 ({} < {})",
        core::mem::align_of::<Entry>(),
        core::mem::align_of::<u64>()
    );
}

#[test]
fn fresh_entry_is_unused() {
    let e = Entry(0);
    assert!(e.is_unused());
    assert_eq!(e.address().get(), 0);
    assert_eq!(e.flags(), 0);
    assert!(e.pointed_frame().is_none());
}

#[test]
fn set_packs_address_and_flags() {
    let mut e = Entry(0);
    e.set(Frame { number: 0x1234 }, PRESENT | WRITABLE);
    assert_eq!(e.address().get(), 0x1234 * PAGE_SIZE);
    assert_eq!(e.flags(), PRESENT | WRITABLE);
    assert_eq!(e.pointed_frame(), Some(Frame { number: 0x1234 }));
    assert!(!e.is_unused());
}

#[test]
fn counter_bits_survive_set_and_set_unused() {
    let mut e = Entry(0);
    e.set_counter_bits(37);
    assert_eq!(e.counter_bits(), 37);
    e.set(Frame { number: 5 }, PRESENT | USER_ACCESSIBLE | NO_CACHE);
    assert_eq!(e.counter_bits(), 37);
    assert_eq!(e.flags(), PRESENT | USER_ACCESSIBLE | NO_CACHE);
    e.set_unused();
    assert_eq!(e.counter_bits(), 37);
    assert_eq!(e.flags(), 0);
    assert_eq!(e.address().get(), 0);
    assert!(e.is_unused());
}

#[test]
fn counter_uses_bits_52_to_61() {
    let mut e = Entry(0);
    e.set_counter_bits(0x3FF);
    assert_eq!(e.0, COUNTER_MASK);
    e.set_counter_bits(1);
    assert_eq!(e.0, 1u64 << 52);
}

#[test]
fn flag_bits_match_the_hardware_encoding() {
    assert_eq!(PRESENT, 1);
    assert_eq!(WRITABLE, 1 << 1);
    assert_eq!(USER_ACCESSIBLE, 1 << 2);
    assert_eq!(NO_CACHE, 1 << 4);
    assert_eq!(HUGE_PAGE, 1 << 7);
    assert_eq!(NO_EXECUTE, 1u64 << 63);
    assert_eq!(ADDRESS_MASK, 0x000f_ffff_ffff_f000);
}

#[test]
fn set_zero_clears_counter_too() {
    let mut e = Entry(0);
    e.set_counter_bits(9);
    e.set_zero();
    assert_eq!(e.0, 0);
}
