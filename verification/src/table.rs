//! One level of the four-level page-table tree: a fixed array of entries
//! with a live-entry counter packed into the otherwise-unused bits of its
//! first entry. The counter exists solely so an empty table's backing frame
//! can later be identified and reclaimed, and it always equals the number
//! of `PRESENT` entries in the table.

use vstd::prelude::*;
use core::marker::PhantomData;
use crate::entry::{self, Entry};
use crate::error::Error;
use crate::memory::{BumpAllocator, Frame};
use crate::paging::{ENTRY_COUNT, PAGE_SIZE};

verus! {

/// A level of the page-table hierarchy.
pub trait TableLevel {

}

/// The top level. The levels are phantom tags, never constructed.
pub enum Level4 {
    Marker,
}

/// The third level.
pub enum Level3 {
    Marker,
}

/// The second level.
pub enum Level2 {
    Marker,
}

/// The leaf level, whose entries map pages.
pub enum Level1 {
    Marker,
}

impl TableLevel for Level4 {

}

impl TableLevel for Level3 {

}

impl TableLevel for Level2 {

}

impl TableLevel for Level1 {

}

/// A non-leaf level, whose entries point to tables of the next level down.
pub trait HierarchicalLevel: TableLevel {
    type NextLevel: TableLevel;
}

impl HierarchicalLevel for Level4 {
    type NextLevel = Level3;
}

impl HierarchicalLevel for Level3 {
    type NextLevel = Level2;
}

impl HierarchicalLevel for Level2 {
    type NextLevel = Level1;
}

/// How many of the first `n` entries are `PRESENT`.
pub open spec fn present_upto(entries: Seq<Entry>, n: int) -> int
    decreases n,
{
    if n <= 0 {
        0
    } else {
        present_upto(entries, n - 1) + if entry::spec_present(entries[n - 1].0) {
            1int
        } else {
            0int
        }
    }
}

/// How many entries of the table are `PRESENT`.
pub open spec fn num_present(entries: Seq<Entry>) -> int {
    present_upto(entries, entries.len() as int)
}

proof fn lemma_present_upto_bounds(entries: Seq<Entry>, n: int)
    requires
        0 <= n <= entries.len(),
    ensures
        0 <= present_upto(entries, n) <= n,
    decreases n,
{
    if n > 0 {
        lemma_present_upto_bounds(entries, n - 1);
    }
}

proof fn lemma_present_upto_update(entries: Seq<Entry>, i: int, e: Entry, n: int)
    requires
        0 <= i < entries.len(),
        0 <= n <= entries.len(),
    ensures
        i < n ==> present_upto(entries.update(i, e), n) == present_upto(entries, n) + (if entry::spec_present(e.0) {
            1int
        } else {
            0int
        }) - (if entry::spec_present(entries[i].0) {
            1int
        } else {
            0int
        }),
        i >= n ==> present_upto(entries.update(i, e), n) == present_upto(entries, n),
    decreases n,
{
    if n > 0 {
        lemma_present_upto_update(entries, i, e, n - 1);
    }
}

/// Replacing one entry changes the `PRESENT` total exactly by the
/// difference the replacement makes at that slot.
pub proof fn lemma_num_present_update(entries: Seq<Entry>, i: int, e: Entry)
    requires
        0 <= i < entries.len(),
    ensures
        num_present(entries.update(i, e)) == num_present(entries) + (if entry::spec_present(e.0) {
            1int
        } else {
            0int
        }) - (if entry::spec_present(entries[i].0) {
            1int
        } else {
            0int
        }),
{
    lemma_present_upto_update(entries, i, e, entries.len() as int);
}

proof fn lemma_present_upto_at_least(entries: Seq<Entry>, i: int, n: int)
    requires
        0 <= i < n <= entries.len(),
        entry::spec_present(entries[i].0),
    ensures
        present_upto(entries, n) >= 1,
    decreases n,
{
    lemma_present_upto_bounds(entries, n - 1);
    if i < n - 1 {
        lemma_present_upto_at_least(entries, i, n - 1);
    }
}

proof fn lemma_present_upto_missing(entries: Seq<Entry>, i: int, n: int)
    requires
        0 <= i < entries.len(),
        0 <= n <= entries.len(),
        !entry::spec_present(entries[i].0),
    ensures
        present_upto(entries, n) <= n - (if i < n {
            1int
        } else {
            0int
        }),
    decreases n,
{
    if n > 0 {
        lemma_present_upto_missing(entries, i, n - 1);
    }
}

proof fn lemma_present_upto_all_absent(entries: Seq<Entry>, n: int)
    requires
        0 <= n <= entries.len(),
        forall|i: int| 0 <= i < entries.len() ==> !entry::spec_present(#[trigger] entries[i].0),
    ensures
        present_upto(entries, n) == 0,
    decreases n,
{
    if n > 0 {
        lemma_present_upto_all_absent(entries, n - 1);
    }
}

/// One page table: `ENTRY_COUNT` entries tagged with their level.
pub struct Table<L: TableLevel> {
    entries: Vec<Entry>,
    level: PhantomData<L>,
}

impl<L: TableLevel> Table<L> {
    /// The raw entries of this table.
    pub closed spec fn spec_entries(&self) -> Seq<Entry> {
        self.entries@
    }

    /// The table has exactly `ENTRY_COUNT` entries.
    pub closed spec fn wf(&self) -> bool {
        self.entries@.len() == ENTRY_COUNT
    }

    /// The live-entry counter stored in the first entry's counter bits.
    pub open spec fn spec_entry_count(&self) -> int {
        entry::spec_counter(self.spec_entries()[0].0) as int
    }

    /// The packed counter is truthful: it equals the number of `PRESENT`
    /// entries in the table.
    pub open spec fn counter_ok(&self) -> bool {
        self.spec_entry_count() == num_present(self.spec_entries())
    }

    /// A fresh table with every entry zero.
    pub fn zeroed() -> (r: Self)
        ensures
            r.wf(),
            r.counter_ok(),
            forall|i: int| 0 <= i < ENTRY_COUNT ==> (#[trigger] r.spec_entries()[i]).0 == 0,
            r.spec_entry_count() == 0,
    {
        let mut entries: Vec<Entry> = Vec::new();
        let mut i: usize = 0;
        while i < ENTRY_COUNT
            invariant
                0 <= i <= ENTRY_COUNT,
                entries@.len() == i,
                forall|j: int| 0 <= j < i ==> (#[trigger] entries@[j]).0 == 0,
            decreases ENTRY_COUNT - i,
        {
            entries.push(Entry(0u64));
            i += 1;
        }
        let table = Table { entries, level: PhantomData };
        proof {
            assert(entry::spec_counter(0u64) == 0 && !entry::spec_present(0u64)) by (bit_vector);
            assert(forall|i: int|
                0 <= i < table.spec_entries().len() ==> !entry::spec_present(
                    #[trigger] table.spec_entries()[i].0,
                ));
            lemma_present_upto_all_absent(table.spec_entries(), ENTRY_COUNT as int);
        }
        table
    }

    /// Read one entry.
    pub fn entry(&self, index: usize) -> (r: Entry)
        requires
            self.wf(),
            index < ENTRY_COUNT,
        ensures
            r == self.spec_entries()[index as int],
    {
        self.entries[index]
    }

    /// The stored live-entry counter.
    pub fn entry_count(&self) -> (r: u64)
        requires
            self.wf(),
        ensures
            r == self.spec_entry_count(),
    {
        self.entries[0].counter_bits()
    }

    /// Store `count` as the live-entry counter, leaving the first entry's
    /// mapping untouched.
    pub fn set_entry_count(&mut self, count: u64)
        requires
            old(self).wf(),
            count <= ENTRY_COUNT as u64,
        ensures
            final(self).wf(),
            final(self).spec_entry_count() == count,
            final(self).spec_entries() == old(self).spec_entries().update(
                0,
                final(self).spec_entries()[0],
            ),
            entry::spec_flags(final(self).spec_entries()[0].0) == entry::spec_flags(
                old(self).spec_entries()[0].0,
            ),
            entry::spec_address(final(self).spec_entries()[0].0) == entry::spec_address(
                old(self).spec_entries()[0].0,
            ),
            num_present(final(self).spec_entries()) == num_present(old(self).spec_entries()),
    {
        let mut e = self.entries[0];
        e.set_counter_bits(count);
        let ghost pre = self.entries@;
        self.entries.set(0, e);
        proof {
            lemma_num_present_update(pre, 0, e);
        }
    }

    /// Whether this table holds no live entries and its frame could be
    /// reclaimed.
    pub fn is_unused(&self) -> (r: bool)
        requires
            self.wf(),
        ensures
            r == (self.spec_entry_count() == 0),
    {
        if self.entry_count() > 0 {
            return false;
        }
        true
    }

    /// Reset every entry, counter included, as when a new table page is
    /// linked into the tree.
    pub fn zero(&mut self)
        requires
            old(self).wf(),
        ensures
            final(self).wf(),
            final(self).counter_ok(),
            forall|i: int|
                0 <= i < ENTRY_COUNT ==> (#[trigger] final(self).spec_entries()[i]).0 == 0,
            final(self).spec_entry_count() == 0,
    {
        let mut i: usize = 0;
        while i < ENTRY_COUNT
            invariant
                0 <= i <= ENTRY_COUNT,
                self.entries@.len() == ENTRY_COUNT,
                forall|j: int| 0 <= j < i ==> (#[trigger] self.entries@[j]).0 == 0,
            decreases ENTRY_COUNT - i,
        {
            self.entries.set(i, Entry(0u64));
            i += 1;
        }
        proof {
            assert(entry::spec_counter(0u64) == 0 && !entry::spec_present(0u64)) by (bit_vector);
            assert(forall|i: int|
                0 <= i < self.spec_entries().len() ==> !entry::spec_present(
                    #[trigger] self.spec_entries()[i].0,
                ));
            lemma_present_upto_all_absent(self.spec_entries(), ENTRY_COUNT as int);
        }
    }

    /// Add one to the live-entry counter.
    pub fn increment_entry_count(&mut self)
        requires
            old(self).wf(),
            old(self).spec_entry_count() < ENTRY_COUNT,
        ensures
            final(self).wf(),
            final(self).spec_entry_count() == old(self).spec_entry_count() + 1,
            entry::spec_flags(final(self).spec_entries()[0].0) == entry::spec_flags(
                old(self).spec_entries()[0].0,
            ),
            entry::spec_address(final(self).spec_entries()[0].0) == entry::spec_address(
                old(self).spec_entries()[0].0,
            ),
            num_present(final(self).spec_entries()) == num_present(old(self).spec_entries()),
            forall|i: int|
                1 <= i < ENTRY_COUNT ==> final(self).spec_entries()[i] == old(
                    self,
                ).spec_entries()[i],
    {
        let current_count = self.entry_count();
        self.set_entry_count(current_count + 1);
    }

    /// Take one from the live-entry counter.
    pub fn decrement_entry_count(&mut self)
        requires
            old(self).wf(),
            1 <= old(self).spec_entry_count() <= ENTRY_COUNT,
        ensures
            final(self).wf(),
            final(self).spec_entry_count() == old(self).spec_entry_count() - 1,
            entry::spec_flags(final(self).spec_entries()[0].0) == entry::spec_flags(
                old(self).spec_entries()[0].0,
            ),
            entry::spec_address(final(self).spec_entries()[0].0) == entry::spec_address(
                old(self).spec_entries()[0].0,
            ),
            num_present(final(self).spec_entries()) == num_present(old(self).spec_entries()),
            forall|i: int|
                1 <= i < ENTRY_COUNT ==> final(self).spec_entries()[i] == old(
                    self,
                ).spec_entries()[i],
    {
        let current_count = self.entry_count();
        self.set_entry_count(current_count - 1);
    }

    /// Explicitly remove the live entry at `index`: the counter is
    /// decremented and the slot's flags and address are cleared, together,
    /// so the counter keeps equalling the number of `PRESENT` entries.
    pub fn clear_entry(&mut self, index: usize)
        requires
            old(self).wf(),
            old(self).counter_ok(),
            index < ENTRY_COUNT,
            entry::spec_present(old(self).spec_entries()[index as int].0),
        ensures
            final(self).wf(),
            final(self).counter_ok(),
            final(self).spec_entry_count() == old(self).spec_entry_count() - 1,
            !entry::spec_present(final(self).spec_entries()[index as int].0),
            entry::spec_flags(final(self).spec_entries()[index as int].0) == 0,
            entry::spec_address(final(self).spec_entries()[index as int].0) == 0,
            forall|j: int|
                0 <= j < ENTRY_COUNT && j != index && j != 0 ==> final(self).spec_entries()[j]
                    == old(self).spec_entries()[j],
    {
        proof {
            lemma_present_upto_at_least(
                self.spec_entries(),
                index as int,
                ENTRY_COUNT as int,
            );
            lemma_present_upto_bounds(self.spec_entries(), ENTRY_COUNT as int);
        }
        self.decrement_entry_count();
        let mut e = self.entries[index];
        e.set_unused();
        let ghost pre = self.entries@;
        self.entries.set(index, e);
        proof {
            entry::lemma_present_within_flags();
            lemma_num_present_update(pre, index as int, e);
        }
    }
}

impl<L: HierarchicalLevel> Table<L> {
    /// The virtual address at which the child table of slot `index` is
    /// visible under the recursive top-level mapping, computed algebraically
    /// from this table's own mapped address; `None` when the slot holds no
    /// child table (absent, or a huge-page mapping).
    pub fn next_table_address(&self, table_address: usize, index: usize) -> (r: Option<usize>)
        requires
            self.wf(),
            index < ENTRY_COUNT,
        ensures
            ({
                let e = self.spec_entries()[index as int].0;
                if entry::spec_present(e) && entry::spec_flags(e) & entry::HUGE_PAGE == 0 {
                    r == Some::<usize>((table_address << 9usize) | (index << 12usize))
                } else {
                    r is None
                }
            }),
    {
        let entry_flags = self.entries[index].flags();
        proof {
            let v = self.spec_entries()[index as int].0;
            let f = entry_flags;
            assert(f == v & entry::FLAGS_MASK ==> ((f & entry::PRESENT != 0) == (v
                & entry::PRESENT != 0) && (f & entry::HUGE_PAGE) == ((v & entry::FLAGS_MASK)
                & entry::HUGE_PAGE))) by (bit_vector);
            assert((v & entry::FLAGS_MASK) & entry::HUGE_PAGE == v & entry::FLAGS_MASK
                & entry::HUGE_PAGE) by (bit_vector);
        }
        if entry_flags & entry::PRESENT != 0 && entry_flags & entry::HUGE_PAGE == 0 {
            proof {
                let v = self.spec_entries()[index as int].0;
                let f = entry_flags;
                assert(f == v & entry::FLAGS_MASK && f & entry::HUGE_PAGE == 0 ==> (v
                    & entry::FLAGS_MASK) & entry::HUGE_PAGE == 0) by (bit_vector);
            }
            Some((table_address << 9) | (index << 12))
        } else {
            None
        }
    }

    /// The core allocation path of the hierarchy: ensure slot `index` holds
    /// a child table. When the slot is empty, one frame is taken from the
    /// allocator, the live-entry counter is incremented, the slot is set
    /// `PRESENT | WRITABLE | USER_ACCESSIBLE` (permission narrowing happens
    /// at the page level, not the table level), and the fresh, zeroed child
    /// table is returned for the caller to own. When a child already
    /// exists, its frame is returned and nothing changes. A huge-page entry
    /// is never a table pointer: calling this on one is a contract
    /// violation, excluded by precondition.
    pub fn next_table_create(&mut self, index: usize, allocator: &mut BumpAllocator) -> (r:
        Result<(Frame, Option<Table<L::NextLevel>>), Error>)
        requires
            old(self).wf(),
            old(self).counter_ok(),
            index < ENTRY_COUNT,
            entry::spec_flags(old(self).spec_entries()[index as int].0) & entry::HUGE_PAGE == 0,
            old(allocator).wf(),
        ensures
            final(self).wf(),
            final(self).counter_ok(),
            final(allocator).wf(),
            final(allocator).spec_areas() == old(allocator).spec_areas(),
            final(allocator).spec_kernel_start() == old(allocator).spec_kernel_start(),
            final(allocator).spec_kernel_end() == old(allocator).spec_kernel_end(),
            final(allocator).cursor() >= old(allocator).cursor(),
            entry::spec_present(old(self).spec_entries()[index as int].0) ==> {
                &&& *final(self) == *old(self)
                &&& *final(allocator) == *old(allocator)
                &&& r matches Ok((frame, fresh)) && fresh is None && frame.number
                    == entry::spec_address(old(self).spec_entries()[index as int].0) as usize
                    / PAGE_SIZE
            },
            !entry::spec_present(old(self).spec_entries()[index as int].0) ==> match r {
                Ok((frame, fresh)) => {
                    &&& fresh matches Some(t) && t.wf() && t.counter_ok()
                        && t.spec_entry_count() == 0
                    &&& final(self).spec_entry_count() == old(self).spec_entry_count() + 1
                    &&& entry::spec_present(final(self).spec_entries()[index as int].0)
                    &&& entry::spec_flags(final(self).spec_entries()[index as int].0)
                        == entry::PRESENT | entry::WRITABLE | entry::USER_ACCESSIBLE
                    &&& entry::spec_address(final(self).spec_entries()[index as int].0)
                        == frame.number * PAGE_SIZE
                    &&& frame.number >= old(allocator).cursor()
                    &&& forall|j: int|
                        0 <= j < ENTRY_COUNT && j != index && j != 0
                            ==> final(self).spec_entries()[j] == old(self).spec_entries()[j]
                },
                Err(e) => {
                    &&& e == Error::OutOfMemory
                    &&& *final(self) == *old(self)
                    &&& final(allocator).spec_current_area() is None
                },
            },
    {
        let e = self.entries[index];
        let present = e.flags() & entry::PRESENT != 0;
        proof {
            let v = self.spec_entries()[index as int].0;
            assert(((v & entry::FLAGS_MASK) & entry::PRESENT != 0) == (v & entry::PRESENT != 0))
                by (bit_vector);
        }
        if present {
            let addr = e.address();
            return Ok((Frame { number: addr.get() / PAGE_SIZE }, None));
        }
        match allocator.allocate_frames3(1, 0, None, 1) {
            None => {
                proof {
                    assert(!crate::memory::space32_requested(0usize)) by (bit_vector);
                }
                Err(Error::OutOfMemory)
            },
            Some((frame, _granted)) => {
                proof {
                    crate::memory::lemma_granted_run_bounds(
                        allocator,
                        frame.number as int,
                        1,
                    );
                    let a = (frame.number * PAGE_SIZE) as u64;
                    assert((a < 0x10_0000_0000_0000 && a % 4096 == 0) ==> a & !entry::ADDRESS_MASK
                        == 0) by (bit_vector);
                    assert((entry::PRESENT | entry::WRITABLE | entry::USER_ACCESSIBLE)
                        & !entry::FLAGS_MASK == 0 && (entry::PRESENT | entry::WRITABLE
                        | entry::USER_ACCESSIBLE) & entry::PRESENT != 0) by (bit_vector);
                    lemma_present_upto_missing(
                        self.spec_entries(),
                        index as int,
                        ENTRY_COUNT as int,
                    );
                    lemma_present_upto_bounds(self.spec_entries(), ENTRY_COUNT as int);
                }
                proof {
                    entry::lemma_present_within_flags();
                }
                self.increment_entry_count();
                let mut slot = self.entries[index];
                slot.set(
                    Frame { number: frame.number },
                    entry::PRESENT | entry::WRITABLE | entry::USER_ACCESSIBLE,
                );
                let ghost pre = self.entries@;
                self.entries.set(index, slot);
                proof {
                    lemma_num_present_update(pre, index as int, slot);
                }
                let table = Table::<L::NextLevel>::zeroed();
                Ok((frame, Some(table)))
            },
        }
    }
}

} // verus!
