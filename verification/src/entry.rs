//! One page-table slot: a packed 64-bit value holding permission flags, a
//! frame-aligned physical address in bits 12..52, and a live-entry counter
//! reused from the hardware-ignored bits 52..62 of a table's first entry.

use vstd::prelude::*;
use crate::memory::Frame;
use crate::paging::{PhysicalAddress, PAGE_SIZE};

verus! {

/// The entry maps a page or points to a child table.
pub const PRESENT: u64 = 1;
/// Writes through this entry are allowed.
pub const WRITABLE: u64 = 1 << 1;
/// The entry may be used from user mode.
pub const USER_ACCESSIBLE: u64 = 1 << 2;
/// Write-through caching.
pub const WRITE_THROUGH: u64 = 1 << 3;
/// Caching disabled.
pub const NO_CACHE: u64 = 1 << 4;
/// Set by hardware on access.
pub const ACCESSED: u64 = 1 << 5;
/// Set by hardware on write.
pub const DIRTY: u64 = 1 << 6;
/// The entry maps a huge page rather than pointing to a child table.
pub const HUGE_PAGE: u64 = 1 << 7;
/// The mapping is visible in every address space.
pub const GLOBAL: u64 = 1 << 8;
/// Instruction fetches through this entry fault.
pub const NO_EXECUTE: u64 = 1 << 63;

/// Bits 12..52: the physical frame address.
pub const ADDRESS_MASK: u64 = 0x000f_ffff_ffff_f000;
/// Bits 52..62: the live-entry counter of a table-header entry.
pub const COUNTER_MASK: u64 = 0x3ff0_0000_0000_0000;
/// Every bit that encodes a permission flag.
pub const FLAGS_MASK: u64 = 0x8000_0000_0000_01ff;

/// The flag bits of a raw entry value.
pub open spec fn spec_flags(v: u64) -> u64 {
    v & FLAGS_MASK
}

/// The physical address packed into a raw entry value.
pub open spec fn spec_address(v: u64) -> u64 {
    v & ADDRESS_MASK
}

/// The live-entry counter packed into a raw entry value.
pub open spec fn spec_counter(v: u64) -> u64 {
    (v & COUNTER_MASK) >> 52u64
}

/// Whether a raw entry value has the `PRESENT` flag.
pub open spec fn spec_present(v: u64) -> bool {
    v & PRESENT != 0
}

/// The `PRESENT` bit is part of the flag field: entries with equal flags
/// agree on presence, and a zero flag field is never present.
pub proof fn lemma_present_within_flags()
    by (bit_vector)
    ensures
        forall|v: u64, w: u64|
            #[trigger] spec_flags(v) == #[trigger] spec_flags(w) ==> spec_present(v)
                == spec_present(w),
        forall|v: u64| #[trigger] spec_flags(v) == 0 ==> !spec_present(v),
{
}

/// One page-table entry.
#[derive(Clone, Copy, Debug, PartialEq, Eq, Structural)]
pub struct Entry(pub u64);

impl Entry {
    /// Clear the whole entry, counter bits included.
    pub fn set_zero(&mut self)
        ensures
            final(self).0 == 0,
    {
        self.0 = 0;
    }

    /// Whether nothing but counter bits is set: no flags, no address.
    pub fn is_unused(&self) -> (r: bool)
        ensures
            r == (self.0 == self.0 & COUNTER_MASK),
            r ==> spec_flags(self.0) == 0 && spec_address(self.0) == 0,
    {
        proof {
            let v = self.0;
            assert((v == v & COUNTER_MASK) ==> (v & FLAGS_MASK == 0 && v & ADDRESS_MASK == 0))
                by (bit_vector);
        }
        self.0 == (self.0 & COUNTER_MASK)
    }

    /// Clear the flags and the address while preserving the counter bits.
    pub fn set_unused(&mut self)
        ensures
            final(self).0 == old(self).0 & COUNTER_MASK,
            spec_counter(final(self).0) == spec_counter(old(self).0),
            spec_flags(final(self).0) == 0,
            spec_address(final(self).0) == 0,
    {
        proof {
            let v = self.0;
            assert(((v & COUNTER_MASK) & COUNTER_MASK) >> 52u64 == (v & COUNTER_MASK) >> 52u64
                && (v & COUNTER_MASK) & FLAGS_MASK == 0
                && (v & COUNTER_MASK) & ADDRESS_MASK == 0) by (bit_vector);
        }
        self.0 &= COUNTER_MASK;
    }

    /// The physical address this entry points at.
    pub fn address(&self) -> (r: PhysicalAddress)
        ensures
            r.0 == spec_address(self.0) as usize,
    {
        PhysicalAddress::new((self.0 & ADDRESS_MASK) as usize)
    }

    /// The permission flags of this entry.
    pub fn flags(&self) -> (r: u64)
        ensures
            r == spec_flags(self.0),
    {
        self.0 & FLAGS_MASK
    }

    /// The frame this entry maps, if it is present.
    pub fn pointed_frame(&self) -> (r: Option<Frame>)
        ensures
            spec_present(self.0) ==> r == Some(Frame {
                number: spec_address(self.0) as usize / PAGE_SIZE,
            }),
            !spec_present(self.0) ==> r is None,
    {
        proof {
            let v = self.0;
            assert(((v & FLAGS_MASK) & PRESENT != 0) == (v & PRESENT != 0)) by (bit_vector);
        }
        if self.flags() & PRESENT != 0 {
            Some(Frame::containing_address(self.address()))
        } else {
            None
        }
    }

    /// Point this entry at `frame` with `flags`, preserving the counter bits.
    pub fn set(&mut self, frame: Frame, flags: u64)
        requires
            frame.number * PAGE_SIZE <= usize::MAX,
            (frame.number * PAGE_SIZE) as u64 & !ADDRESS_MASK == 0,
            flags & !FLAGS_MASK == 0,
        ensures
            final(self).0 == ((frame.number * PAGE_SIZE) as u64 | flags | (old(self).0
                & COUNTER_MASK)),
            spec_address(final(self).0) == (frame.number * PAGE_SIZE) as u64,
            spec_flags(final(self).0) == flags,
            spec_counter(final(self).0) == spec_counter(old(self).0),
            spec_present(final(self).0) == (flags & PRESENT != 0),
    {
        let addr: u64 = frame.start_address().get() as u64;
        proof {
            let v = self.0;
            let f = flags;
            let a = addr;
            assert((a & !ADDRESS_MASK == 0 && f & !FLAGS_MASK == 0) ==> {
                let n = a | f | (v & COUNTER_MASK);
                &&& n & ADDRESS_MASK == a
                &&& n & FLAGS_MASK == f
                &&& (n & COUNTER_MASK) >> 52u64 == (v & COUNTER_MASK) >> 52u64
                &&& (n & PRESENT != 0) == (f & PRESENT != 0)
            }) by (bit_vector);
        }
        self.0 = addr | flags | (self.0 & COUNTER_MASK);
    }

    /// Bits 52..62, used as the live-entry counter of a table's first entry.
    pub fn counter_bits(&self) -> (r: u64)
        ensures
            r == spec_counter(self.0),
            r < 1024,
    {
        proof {
            let v = self.0;
            assert((v & COUNTER_MASK) >> 52u64 < 1024) by (bit_vector);
        }
        (self.0 & COUNTER_MASK) >> 52
    }

    /// Store `count` in bits 52..62, preserving the flags and the address.
    pub fn set_counter_bits(&mut self, count: u64)
        requires
            count < 1024,
        ensures
            final(self).0 == ((old(self).0 & !COUNTER_MASK) | (count << 52u64)),
            spec_counter(final(self).0) == count,
            spec_flags(final(self).0) == spec_flags(old(self).0),
            spec_address(final(self).0) == spec_address(old(self).0),
            spec_present(final(self).0) == spec_present(old(self).0),
    {
        proof {
            let v = self.0;
            let c = count;
            assert(c < 1024 ==> {
                let n = (v & !COUNTER_MASK) | (c << 52u64);
                &&& (n & COUNTER_MASK) >> 52u64 == c
                &&& n & FLAGS_MASK == v & FLAGS_MASK
                &&& n & ADDRESS_MASK == v & ADDRESS_MASK
                &&& (n & PRESENT != 0) == (v & PRESENT != 0)
            }) by (bit_vector);
        }
        self.0 = (self.0 & !COUNTER_MASK) | (count << 52);
    }
}

} // verus!
