//! The interrupt descriptor table: 256 gate entries plus a bitmap of
//! vectors already claimed by a handler. Reservations follow the one-way
//! fetch-or discipline of the hardware table: they are only ever set,
//! never cleared.

use vstd::prelude::*;

verus! {

/// Gate is present.
pub const IDT_PRESENT: u8 = 1 << 7;
/// Privilege ring 0.
pub const IDT_RING_0: u8 = 0 << 5;
/// Privilege ring 1.
pub const IDT_RING_1: u8 = 1 << 5;
/// Privilege ring 2.
pub const IDT_RING_2: u8 = 2 << 5;
/// Privilege ring 3.
pub const IDT_RING_3: u8 = 3 << 5;
/// Storage-segment bit.
pub const IDT_SS: u8 = 1 << 4;
/// Interrupt-gate type.
pub const IDT_INTERRUPT: u8 = 0xE;
/// Trap-gate type.
pub const IDT_TRAP: u8 = 0xF;

/// Vector `index` is marked reserved in the bitmap words `res`.
pub open spec fn idt_reserved(res: Seq<u64>, index: int) -> bool {
    res[index / 64] & (1u64 << ((index % 64) as u64)) != 0
}

proof fn lemma_reserve_bit_effects()
    by (bit_vector)
    ensures
        forall|v: u64, x: u64, b: u64|
            b < 64 && x <= 1 ==> (((#[trigger] (v | (x << b))) & (1u64 << b) != 0) == (v & (1u64
                << b) != 0 || x == 1)),
        forall|v: u64, x: u64, b: u64, c: u64|
            b < 64 && c < 64 && b != c && x <= 1 ==> (((#[trigger] (v | (x << b))) & (#[trigger] (
            1u64 << c)) != 0) == (v & (1u64 << c) != 0)),
{
}

/// One 128-bit gate descriptor.
#[derive(Copy, Clone, Debug, Default, PartialEq, Eq, Structural)]
pub struct IdtEntry {
    pub offsetl: u16,
    pub selector: u16,
    pub zero: u8,
    pub attribute: u8,
    pub offsetm: u16,
    pub offseth: u32,
    pub zero2: u32,
}

impl IdtEntry {
    /// An empty gate.
    pub fn new() -> (r: IdtEntry)
        ensures
            r == (IdtEntry {
                offsetl: 0,
                selector: 0,
                zero: 0,
                attribute: 0,
                offsetm: 0,
                offseth: 0,
                zero2: 0,
            }),
    {
        IdtEntry { offsetl: 0, selector: 0, zero: 0, attribute: 0, offsetm: 0, offseth: 0, zero2: 0 }
    }

    /// Set the descriptor's attribute byte.
    pub fn set_flags(&mut self, flags: u8)
        ensures
            *final(self) == (IdtEntry { attribute: flags, ..*old(self) }),
    {
        self.attribute = flags;
    }

    /// Point the descriptor at the handler address `base` in segment `selector`,
    /// split across the three offset fields.
    pub fn set_offset(&mut self, selector: u16, base: usize)
        ensures
            final(self).selector == selector,
            final(self).offsetl == base as u16,
            final(self).offsetm == ((base as u64) >> 16u64) as u16,
            final(self).offseth == ((base as u64) >> 32u64) as u32,
            final(self).zero == old(self).zero,
            final(self).attribute == old(self).attribute,
            final(self).zero2 == old(self).zero2,
    {
        self.selector = selector;
        self.offsetl = base as u16;
        self.offsetm = ((base as u64) >> 16) as u16;
        self.offseth = ((base as u64) >> 32) as u32;
    }

    /// Install a kernel interrupt handler, given by its address: present,
    /// ring 0, interrupt gate, in the kernel code segment.
    pub fn set_func(&mut self, func: usize)
        ensures
            final(self).attribute == IDT_PRESENT | IDT_RING_0 | IDT_INTERRUPT,
            final(self).selector == 8,
            final(self).offsetl == func as u16,
            final(self).offsetm == ((func as u64) >> 16u64) as u16,
            final(self).offseth == ((func as u64) >> 32u64) as u32,
            final(self).zero == old(self).zero,
            final(self).zero2 == old(self).zero2,
    {
        self.set_flags(IDT_PRESENT | IDT_RING_0 | IDT_INTERRUPT);
        self.set_offset(8, func);
    }
}

/// A fresh reservation bitmap: four words, nothing reserved.
pub fn new_idt_reservations() -> (r: Vec<u64>)
    ensures
        r@.len() == 4,
        forall|i: int| 0 <= i < 4 ==> r@[i] == 0,
{
    let mut reservations: Vec<u64> = Vec::new();
    reservations.push(0);
    reservations.push(0);
    reservations.push(0);
    reservations.push(0);
    reservations
}

/// One processor's interrupt descriptor table.
pub struct Idt {
    entries: Vec<IdtEntry>,
    reservations: Vec<u64>,
}

impl Idt {
    /// The 256 gate descriptors.
    pub closed spec fn spec_entries(&self) -> Seq<IdtEntry> {
        self.entries@
    }

    /// The four reservation bitmap words.
    pub closed spec fn spec_reservations(&self) -> Seq<u64> {
        self.reservations@
    }

    /// The table holds 256 gates and 4 bitmap words.
    pub closed spec fn wf(&self) -> bool {
        self.entries@.len() == 256 && self.reservations@.len() == 4
    }

    /// An empty table: every gate blank, no vector reserved.
    pub fn new() -> (r: Self)
        ensures
            r.wf(),
            forall|i: int|
                0 <= i < 256 ==> (#[trigger] r.spec_entries()[i]) == (IdtEntry {
                    offsetl: 0,
                    selector: 0,
                    zero: 0,
                    attribute: 0,
                    offsetm: 0,
                    offseth: 0,
                    zero2: 0,
                }),
            forall|i: int| 0 <= i < 256 ==> !idt_reserved(r.spec_reservations(), i),
    {
        let mut entries: Vec<IdtEntry> = Vec::new();
        let mut i: usize = 0;
        while i < 256
            invariant
                0 <= i <= 256,
                entries@.len() == i,
                forall|j: int|
                    0 <= j < i ==> (#[trigger] entries@[j]) == (IdtEntry {
                        offsetl: 0,
                        selector: 0,
                        zero: 0,
                        attribute: 0,
                        offsetm: 0,
                        offseth: 0,
                        zero2: 0,
                    }),
            decreases 256 - i,
        {
            entries.push(IdtEntry::new());
            i += 1;
        }
        let idt = Self { entries, reservations: new_idt_reservations() };
        proof {
            assert(forall|b: u64| b < 64 ==> (0u64 & (1u64 << b)) == 0) by (bit_vector);
        }
        idt
    }

    /// Read one gate.
    pub fn entry(&self, index: u8) -> (r: IdtEntry)
        requires
            self.wf(),
        ensures
            r == self.spec_entries()[index as int],
    {
        self.entries[index as usize]
    }

    /// Replace one gate.
    pub fn set_entry(&mut self, index: u8, entry: IdtEntry)
        requires
            old(self).wf(),
        ensures
            final(self).wf(),
            final(self).spec_entries() == old(self).spec_entries().update(index as int, entry),
            final(self).spec_reservations() == old(self).spec_reservations(),
    {
        self.entries.set(index as usize, entry);
    }

    /// Whether vector `index` is reserved.
    pub fn is_reserved(&self, index: u8) -> (r: bool)
        requires
            self.wf(),
        ensures
            r == idt_reserved(self.spec_reservations(), index as int),
    {
        let byte_index = index / 64;
        let bit = index % 64;
        self.reservations[byte_index as usize] & (1u64 << (bit as u64)) != 0
    }

    /// Mark vector `index` reserved; as in the hardware table, passing
    /// `false` leaves the bitmap untouched (reservations are one-way).
    pub fn set_reserved(&mut self, index: u8, reserved: bool)
        requires
            old(self).wf(),
        ensures
            final(self).wf(),
            final(self).spec_entries() == old(self).spec_entries(),
            idt_reserved(final(self).spec_reservations(), index as int) == (idt_reserved(
                old(self).spec_reservations(),
                index as int,
            ) || reserved),
            forall|other: int|
                0 <= other < 256 && other != index ==> idt_reserved(
                    final(self).spec_reservations(),
                    other,
                ) == idt_reserved(old(self).spec_reservations(), other),
    {
        let byte_index = index / 64;
        let bit = index % 64;
        let word = self.reservations[byte_index as usize];
        let mask: u64 = if reserved {
            1u64
        } else {
            0u64
        };
        self.reservations.set(byte_index as usize, word | (mask << (bit as u64)));
        proof {
            lemma_reserve_bit_effects();
            assert forall|other: int|
                0 <= other < 256 && other != index implies idt_reserved(
                self.reservations@,
                other,
            ) == idt_reserved(old(self).reservations@, other) by {
                if other / 64 == index as int / 64 {
                    assert(other % 64 != index as int % 64);
                }
            }
        }
    }

    /// The `&mut` flavour of the reservation test, for callers holding
    /// exclusive access.
    pub fn is_reserved_mut(&mut self, index: u8) -> (r: bool)
        requires
            old(self).wf(),
        ensures
            *final(self) == *old(self),
            r == idt_reserved(old(self).spec_reservations(), index as int),
    {
        self.is_reserved(index)
    }

    /// The `&mut` flavour of the reservation update.
    pub fn set_reserved_mut(&mut self, index: u8, reserved: bool)
        requires
            old(self).wf(),
        ensures
            final(self).wf(),
            final(self).spec_entries() == old(self).spec_entries(),
            idt_reserved(final(self).spec_reservations(), index as int) == (idt_reserved(
                old(self).spec_reservations(),
                index as int,
            ) || reserved),
            forall|other: int|
                0 <= other < 256 && other != index ==> idt_reserved(
                    final(self).spec_reservations(),
                    other,
                ) == idt_reserved(old(self).spec_reservations(), other),
    {
        self.set_reserved(index, reserved);
    }

    /// Claim the lowest free vector in the dynamically allocatable range
    /// 50..=254, or report that none is left.
    pub fn allocate_interrupt(&mut self) -> (r: Option<u8>)
        requires
            old(self).wf(),
        ensures
            final(self).wf(),
            final(self).spec_entries() == old(self).spec_entries(),
            r matches Some(number) ==> {
                &&& 50 <= number <= 254
                &&& !idt_reserved(old(self).spec_reservations(), number as int)
                &&& idt_reserved(final(self).spec_reservations(), number as int)
                &&& forall|lower: int|
                    50 <= lower < number ==> idt_reserved(old(self).spec_reservations(), lower)
                &&& forall|other: int|
                    0 <= other < 256 && other != number ==> idt_reserved(
                        final(self).spec_reservations(),
                        other,
                    ) == idt_reserved(old(self).spec_reservations(), other)
            },
            r is None ==> *final(self) == *old(self) && forall|number: int|
                50 <= number <= 254 ==> idt_reserved(old(self).spec_reservations(), number),
    {
        let mut number: u8 = 50;
        while number <= 254
            invariant
                old(self).wf(),
                *self == *old(self),
                50 <= number <= 255,
                forall|lower: int|
                    50 <= lower < number ==> idt_reserved(self.spec_reservations(), lower),
            decreases 255 - number,
        {
            if !self.is_reserved(number) {
                self.set_reserved(number, true);
                return Some(number);
            }
            if number == 254 {
                return None;
            }
            number += 1;
        }
        None
    }
}

/// The free vectors among `lo..hi` in the bitmap `res`, ascending.
pub open spec fn avail_range(res: Seq<u64>, lo: int, hi: int) -> Seq<u8>
    decreases hi - lo,
{
    if hi <= lo {
        Seq::empty()
    } else {
        avail_range(res, lo, hi - 1) + if !idt_reserved(res, hi - 1) {
            seq![(hi - 1) as u8]
        } else {
            Seq::empty()
        }
    }
}

/// Every vector at or above the legacy-IRQ base that no handler has
/// reserved yet, in ascending order.
pub fn available_irqs_iter(idt: &Idt) -> (r: Vec<u8>)
    requires
        idt.wf(),
    ensures
        r@ == avail_range(idt.spec_reservations(), 32, 255),
{
    let mut result: Vec<u8> = Vec::new();
    let mut index: u8 = 32;
    while index <= 254
        invariant
            idt.wf(),
            32 <= index <= 255,
            result@ == avail_range(idt.spec_reservations(), 32, index as int),
        decreases 255 - index,
    {
        if !idt.is_reserved(index) {
            result.push(index);
        }
        index += 1;
    }
    result
}

} // verus!
