//! The privileged physical-memory operations: allocate, free, map, unmap
//! and translate, plus the I/O-privilege adjustment. Every privileged
//! operation fails before any side effect unless the caller is the root
//! principal. Grants record the caller-owned virtual-to-physical mappings
//! of one address space; they never overlap and are kept in ascending
//! address order.

use vstd::prelude::*;
use crate::entry;
use crate::error::Error;
use crate::interrupt::InterruptStack;
use crate::memory::{
    area_serves, granted_len, partial_requested, run_crosses_4g, run_hits_kernel,
    space32_requested, within_some_area, BumpAllocator, Frame, PHYSALLOC_PARTIAL_ALLOC,
    PHYSALLOC_SPACE_32, PHYSALLOC_SPACE_64, PartialAllocStrategy,
};
use crate::paging::{ActivePageTable, PhysicalAddress, VirtualAddress, PAGE_SIZE};

verus! {

/// The request wants write access through the mapping.
pub const PHYSMAP_WRITE: usize = 1;
/// The request wants write-combining caching, encoded through the
/// huge-page bit reinterpretation.
pub const PHYSMAP_WRITE_COMBINE: usize = 2;
/// The request wants caching disabled.
pub const PHYSMAP_NO_CACHE: usize = 4;

/// The flag-word bits that select a partial-allocation strategy.
pub const PARTIAL_ALLOC_STRATEGY_MASK: usize = 0x00ff_0000;

/// The reserved base of the user-grant window: mappings created by the
/// map operation are placed at or above this virtual address.
pub const USER_GRANT_OFFSET: usize = 0x8000_0000;

/// One caller-owned virtual-to-physical mapping inside an address space.
#[derive(Clone, Copy, Debug, PartialEq, Eq, Structural)]
pub struct Grant {
    pub start: VirtualAddress,
    pub physical: PhysicalAddress,
    pub size: usize,
    pub flags: u64,
}

impl Grant {
    /// The grant record a map operation installs.
    pub fn physmap(physical: PhysicalAddress, start: VirtualAddress, size: usize, flags: u64) -> (r:
        Grant)
        ensures
            r == (Grant { start, physical, size, flags }),
    {
        Grant { start, physical, size, flags }
    }

    /// First virtual address of the mapping.
    pub fn start_address(&self) -> (r: VirtualAddress)
        ensures
            r == self.start,
    {
        self.start
    }

    /// First physical address of the mapping.
    pub fn physical_address(&self) -> (r: PhysicalAddress)
        ensures
            r == self.physical,
    {
        self.physical
    }

    /// Size of the mapping in bytes.
    pub fn size(&self) -> (r: usize)
        ensures
            r == self.size,
    {
        self.size
    }

    /// The page-table entry flags of the mapping.
    pub fn flags(&self) -> (r: u64)
        ensures
            r == self.flags,
    {
        self.flags
    }

    /// The virtual start of the grant, as a plain integer.
    pub open spec fn spec_start(&self) -> int {
        self.start.0 as int
    }

    /// The physical start of the grant, as a plain integer.
    pub open spec fn spec_physical(&self) -> int {
        self.physical.0 as int
    }

    /// The size of the grant in bytes.
    pub open spec fn spec_size(&self) -> int {
        self.size as int
    }

    /// The page-table entry flags of the grant.
    pub open spec fn spec_flags(&self) -> u64 {
        self.flags
    }
}

/// The lightweight (start, size) key used to look a grant up; derived
/// from, and never outliving, its grant.
#[derive(Clone, Copy, Debug, PartialEq, Eq, Structural)]
pub struct Region {
    pub start: VirtualAddress,
    pub size: usize,
}

impl Region {
    /// The key of a grant.
    pub fn from(grant: &Grant) -> (r: Region)
        ensures
            r.start == grant.start,
            r.size == grant.size,
    {
        Region { start: grant.start_address(), size: grant.size() }
    }
}

/// The grant `g` covers the virtual address `addr`.
pub open spec fn grant_covers(g: Grant, addr: int) -> bool {
    g.spec_start() <= addr < g.spec_start() + g.spec_size()
}

/// Every grant is page-granular, non-empty, inside the user-grant window,
/// and the list is sorted by start address with no two grants overlapping.
pub open spec fn grants_wf(s: Seq<Grant>) -> bool {
    &&& forall|i: int|
        0 <= i < s.len() ==> {
            &&& (#[trigger] s[i]).spec_size() > 0
            &&& s[i].spec_size() % (PAGE_SIZE as int) == 0
            &&& s[i].spec_start() + s[i].spec_size() <= usize::MAX
            &&& s[i].spec_start() >= USER_GRANT_OFFSET
        }
    &&& forall|i: int, j: int|
        0 <= i < j < s.len() ==> (#[trigger] s[i]).spec_start() + s[i].spec_size() <= (
        #[trigger] s[j]).spec_start()
}

/// How many grants start below `start`: the position at which a grant
/// starting there belongs in the sorted list.
pub open spec fn grants_position_upto(s: Seq<Grant>, start: int, n: int) -> int
    decreases n,
{
    if n <= 0 {
        0
    } else {
        grants_position_upto(s, start, n - 1) + if s[n - 1].spec_start() < start {
            1int
        } else {
            0int
        }
    }
}

/// The insertion position of a grant starting at `start`.
pub open spec fn grants_position(s: Seq<Grant>, start: int) -> int {
    grants_position_upto(s, start, s.len() as int)
}

proof fn lemma_grants_position_all_below(s: Seq<Grant>, start: int, k: int, n: int)
    requires
        0 <= k <= s.len(),
        0 <= n <= s.len(),
        forall|j: int| 0 <= j < k ==> (#[trigger] s[j]).spec_start() < start,
        forall|j: int| k <= j < s.len() ==> (#[trigger] s[j]).spec_start() >= start,
    ensures
        grants_position_upto(s, start, n) == if n <= k {
            n
        } else {
            k
        },
    decreases n,
{
    if n > 0 {
        lemma_grants_position_all_below(s, start, k, n - 1);
    }
}

/// The set of grants of one address space.
pub struct Grants {
    inner: Vec<Grant>,
}

impl Grants {
    /// The grants, in ascending address order.
    pub closed spec fn view(&self) -> Seq<Grant> {
        self.inner@
    }

    /// The list is sorted and non-overlapping.
    pub open spec fn wf(&self) -> bool {
        grants_wf(self@)
    }

    /// An address space starts with no grants.
    pub fn new() -> (r: Grants)
        ensures
            r.wf(),
            r@ == Seq::<Grant>::empty(),
    {
        Grants { inner: Vec::new() }
    }

    /// How many grants the address space holds.
    pub fn len(&self) -> (r: usize)
        ensures
            r == self@.len(),
    {
        self.inner.len()
    }

    /// Read one grant by its position in address order.
    pub fn get(&self, index: usize) -> (r: Grant)
        requires
            index < self@.len(),
        ensures
            r == self@[index as int],
    {
        self.inner[index]
    }

    /// The grant covering `address`, if any.
    pub fn contains(&self, address: VirtualAddress) -> (r: Option<Grant>)
        requires
            self.wf(),
        ensures
            r matches Some(g) ==> grant_covers(g, address.0 as int) && exists|i: int|
                0 <= i < self@.len() && self@[i] == g,
            r is None ==> forall|i: int|
                0 <= i < self@.len() ==> !grant_covers(#[trigger] self@[i], address.0 as int),
    {
        let n = self.inner.len();
        let mut i: usize = 0;
        while i < n
            invariant
                0 <= i <= n,
                n == self@.len(),
                self.wf(),
                forall|j: int|
                    0 <= j < i ==> !grant_covers(#[trigger] self@[j], address.0 as int),
            decreases n - i,
        {
            let grant = self.inner[i];
            if grant.start_address().get() <= address.get() && address.get()
                - grant.start_address().get() < grant.size() {
                return Some(grant);
            }
            i += 1;
        }
        None
    }

    /// Remove and return the grant whose key equals `region`, if any.
    pub fn take(&mut self, region: &Region) -> (r: Option<Grant>)
        requires
            old(self).wf(),
        ensures
            final(self).wf(),
            r matches Some(g) ==> {
                &&& g.start == region.start && g.size == region.size
                &&& exists|i: int|
                    0 <= i < old(self)@.len() && old(self)@[i] == g && final(self)@ == old(
                        self,
                    )@.remove(i)
            },
            r is None ==> *final(self) == *old(self) && forall|i: int|
                0 <= i < old(self)@.len() ==> !((#[trigger] old(self)@[i]).start == region.start
                    && old(self)@[i].size == region.size),
    {
        let n = self.inner.len();
        let mut i: usize = 0;
        while i < n
            invariant
                0 <= i <= n,
                n == self@.len(),
                self.wf(),
                *self == *old(self),
                forall|j: int|
                    0 <= j < i ==> !((#[trigger] self@[j]).start == region.start && self@[j].size
                        == region.size),
            decreases n - i,
        {
            let grant = self.inner[i];
            if grant.start_address().get() == region.start.get() && grant.size() == region.size {
                let removed = self.inner.remove(i);
                proof {
                    assert(grants_wf(self.inner@)) by {
                        assert(forall|a: int, b: int|
                            0 <= a < b < self.inner@.len() ==> (#[trigger] self.inner@[a],
                            #[trigger] self.inner@[b]) == (
                                if a < i {
                                    old(self)@[a]
                                } else {
                                    old(self)@[a + 1]
                                },
                                if b < i {
                                    old(self)@[b]
                                } else {
                                    old(self)@[b + 1]
                                },
                            ));
                    }
                }
                return Some(removed);
            }
            i += 1;
        }
        None
    }

    /// Insert a grant that overlaps none of the existing ones, keeping the
    /// list sorted.
    pub fn insert(&mut self, grant: Grant)
        requires
            old(self).wf(),
            grant.spec_size() > 0,
            grant.spec_size() % (PAGE_SIZE as int) == 0,
            grant.spec_start() + grant.spec_size() <= usize::MAX,
            grant.spec_start() >= USER_GRANT_OFFSET,
            forall|i: int|
                0 <= i < old(self)@.len() ==> ((#[trigger] old(self)@[i]).spec_start() + old(
                    self,
                )@[i].spec_size() <= grant.spec_start() || grant.spec_start() + grant.spec_size()
                    <= old(self)@[i].spec_start()),
        ensures
            final(self).wf(),
            final(self)@ == old(self)@.insert(
                grants_position(old(self)@, grant.spec_start()),
                grant,
            ),
    {
        let n = self.inner.len();
        let mut i: usize = 0;
        while i < n && self.inner[i].start.get() < grant.start.get()
            invariant
                0 <= i <= n,
                n == self@.len(),
                *self == *old(self),
                self.wf(),
                forall|j: int| 0 <= j < i ==> (#[trigger] self@[j]).spec_start() < grant.spec_start(),
            decreases n - i,
        {
            i += 1;
        }
        proof {
            assert forall|j: int|
                i <= j < self@.len() implies (#[trigger] self@[j]).spec_start()
                >= grant.spec_start() by {
                if j > i {
                    assert(self@[i as int].spec_start() + self@[i as int].spec_size()
                        <= self@[j].spec_start());
                    assert(self@[i as int].spec_size() > 0);
                }
            }
            lemma_grants_position_all_below(
                self@,
                grant.spec_start(),
                i as int,
                self@.len() as int,
            );
        }
        let ghost pre = self@;
        self.inner.insert(i, grant);
        proof {
            assert forall|a: int, b: int|
                0 <= a < b < self.inner@.len() implies (#[trigger] self.inner@[a]).spec_start() + (
            self.inner@[a]).spec_size() <= (#[trigger] self.inner@[b]).spec_start() by {
                let ia = if a < i {
                    a
                } else {
                    a - 1
                };
                let ib = if b < i {
                    b
                } else {
                    b - 1
                };
                if a == i {
                    assert(pre[ib].spec_start() >= grant.spec_start());
                } else if b == i {
                    assert(pre[ia].spec_start() < grant.spec_start());
                } else {
                    assert(self.inner@[a] == pre[ia] && self.inner@[b] == pre[ib]);
                }
            }
        }
    }
}

/// What the syscall layer knows about the calling thread: its effective
/// user id and the grants of its address space.
pub struct CallerContext {
    pub euid: u32,
    pub grants: Grants,
}

/// The caller is the root principal: a context exists and its effective
/// user id is zero.
pub open spec fn caller_is_root(current: Option<&CallerContext>) -> bool {
    current matches Some(c) && c.euid == 0
}

/// Fail unless the calling thread exists and is the root principal; every
/// privileged operation runs this check before any side effect.
pub fn enforce_root(current: Option<&CallerContext>) -> (r: Result<(), Error>)
    ensures
        current is None ==> r == Err::<(), Error>(Error::NoSuchProcess),
        current matches Some(c) && c.euid != 0 ==> r == Err::<(), Error>(
            Error::PermissionDenied,
        ),
        caller_is_root(current) ==> r == Ok::<(), Error>(()),
{
    match current {
        None => Err(Error::NoSuchProcess),
        Some(context) => {
            if context.euid == 0 {
                Ok(())
            } else {
                Err(Error::PermissionDenied)
            }
        },
    }
}

/// Set the I/O-privilege bits (bits 12 and 13) of the caller's saved flags
/// register in its trap frame. Privileged; a level above 3 is rejected.
pub fn iopl(level: usize, stack: &mut InterruptStack, current: Option<&CallerContext>) -> (r:
    Result<usize, Error>)
    ensures
        current is None ==> r == Err::<usize, Error>(Error::NoSuchProcess) && *final(stack)
            == *old(stack),
        current matches Some(c) && c.euid != 0 ==> r == Err::<usize, Error>(
            Error::PermissionDenied,
        ) && *final(stack) == *old(stack),
        caller_is_root(current) && level > 3 ==> r == Err::<usize, Error>(
            Error::InvalidArgument,
        ) && *final(stack) == *old(stack),
        caller_is_root(current) && level <= 3 ==> r == Ok::<usize, Error>(0) && *final(stack)
            == (InterruptStack {
            iret: crate::interrupt::IretRegisters {
                rflags: ((old(stack).iret.rflags & !(3usize << 12usize)) | (level << 12usize)),
                ..old(stack).iret
            },
            ..*old(stack)
        }),
{
    if let Err(e) = enforce_root(current) {
        return Err(e);
    }
    if level > 3 {
        return Err(Error::InvalidArgument);
    }
    proof {
        let l = level;
        assert(l <= 3 ==> (l & 3) == l) by (bit_vector);
        assert(l <= 3 ==> (l & 3) << 12usize == l << 12usize) by (bit_vector);
    }
    stack.iret.rflags = (stack.iret.rflags & !(3 << 12)) | ((level & 3) << 12);
    Ok(0)
}

/// Allocate physical frames for `size` bytes, rounded up to frame
/// granularity. Returns the physical base address and the number of bytes
/// actually granted. Requesting the 32-bit and the 64-bit space together
/// is invalid; exhaustion reports out-of-memory.
pub fn inner_physalloc(
    size: usize,
    flags: usize,
    strategy: Option<PartialAllocStrategy>,
    min: usize,
    allocator: &mut BumpAllocator,
) -> (r: Result<(usize, usize), Error>)
    requires
        old(allocator).wf(),
        size + 4095 <= usize::MAX,
        min <= size,
        partial_requested(flags) ==> min >= 1,
    ensures
        final(allocator).wf(),
        final(allocator).spec_areas() == old(allocator).spec_areas(),
        final(allocator).spec_kernel_start() == old(allocator).spec_kernel_start(),
        final(allocator).spec_kernel_end() == old(allocator).spec_kernel_end(),
        final(allocator).cursor() >= old(allocator).cursor(),
        space32_requested(flags) && flags & PHYSALLOC_SPACE_64 != 0 ==> r == Err::<
            (usize, usize),
            Error,
        >(Error::InvalidArgument) && *final(allocator) == *old(allocator),
        r matches Err(e) ==> e == Error::InvalidArgument || e == Error::OutOfMemory,
        r == Err::<(usize, usize), Error>(Error::InvalidArgument) <==> space32_requested(flags)
            && flags & PHYSALLOC_SPACE_64 != 0,
        r matches Ok((base, bytes)) ==> {
            let pages = (size + 4095) / (PAGE_SIZE as int);
            let min_pages = (min + 4095) / (PAGE_SIZE as int);
            &&& base as int % (PAGE_SIZE as int) == 0
            &&& bytes as int % (PAGE_SIZE as int) == 0
            &&& PAGE_SIZE <= bytes <= pages * (PAGE_SIZE as int)
            &&& (partial_requested(flags) ==> bytes >= min_pages * (PAGE_SIZE as int))
            &&& (!partial_requested(flags) ==> bytes == pages * (PAGE_SIZE as int))
            &&& base as int / (PAGE_SIZE as int) >= old(allocator).cursor()
            &&& final(allocator).cursor() == base as int / (PAGE_SIZE as int) + bytes as int
                / (PAGE_SIZE as int)
            &&& (base as int / (PAGE_SIZE as int) + bytes as int / (PAGE_SIZE as int) <= old(
                allocator,
            ).spec_kernel_start() || base as int / (PAGE_SIZE as int) > old(
                allocator,
            ).spec_kernel_end())
            &&& crate::memory::within_some_area(
                old(allocator).spec_areas(),
                base as int / (PAGE_SIZE as int),
                bytes as int / (PAGE_SIZE as int),
            )
            &&& (space32_requested(flags) ==> base + bytes <= 0x1_0000_0000)
        },
        // Failure is owed only to a malformed request, a zero size, the
        // 4 GiB cap, or true exhaustion.
        size == 0 && !(space32_requested(flags) && flags & PHYSALLOC_SPACE_64 != 0) ==> r
            == Err::<(usize, usize), Error>(Error::OutOfMemory) && *final(allocator) == *old(
            allocator,
        ),
        r == Err::<(usize, usize), Error>(Error::OutOfMemory) && size > 0
            && !space32_requested(flags) ==> final(allocator).spec_current_area() is None,
        old(allocator).spec_current_area() matches Some(a) ==> ((size > 0 && !(space32_requested(
            flags,
        ) && flags & PHYSALLOC_SPACE_64 != 0) && area_serves(
            a,
            old(allocator).cursor(),
            (size + 4095) / (PAGE_SIZE as int),
            flags,
            (min + 4095) / (PAGE_SIZE as int),
        )) ==> {
            let len = granted_len(
                a,
                old(allocator).cursor(),
                (size + 4095) / (PAGE_SIZE as int),
                flags,
            );
            &&& (space32_requested(flags) && run_crosses_4g(old(allocator).cursor(), len)) ==> r
                == Err::<(usize, usize), Error>(Error::OutOfMemory) && *final(allocator) == *old(
                allocator,
            )
            &&& (!(space32_requested(flags) && run_crosses_4g(old(allocator).cursor(), len))
                && !run_hits_kernel(
                old(allocator).cursor(),
                len,
                old(allocator).spec_kernel_start(),
                old(allocator).spec_kernel_end(),
            )) ==> (r matches Ok((base, bytes)) && base as int == old(allocator).cursor() * (
            PAGE_SIZE as int) && bytes as int == len * (PAGE_SIZE as int))
        }),
{
    if flags & PHYSALLOC_SPACE_32 != 0 && flags & PHYSALLOC_SPACE_64 != 0 {
        return Err(Error::InvalidArgument);
    }
    let count = (size + 4095) / PAGE_SIZE;
    let count_min = (min + 4095) / PAGE_SIZE;
    proof {
        vstd::arithmetic::div_mod::lemma_div_is_ordered(
            min + 4095,
            size + 4095,
            PAGE_SIZE as int,
        );
        if partial_requested(flags) {
            vstd::arithmetic::div_mod::lemma_div_is_ordered(
                PAGE_SIZE as int,
                min + 4095,
                PAGE_SIZE as int,
            );
        }
        if size > 0 {
            vstd::arithmetic::div_mod::lemma_div_is_ordered(
                PAGE_SIZE as int,
                size + 4095,
                PAGE_SIZE as int,
            );
        }
    }
    match allocator.allocate_frames3(count, flags, strategy, count_min) {
        None => Err(Error::OutOfMemory),
        Some((frame, granted)) => {
            proof {
                crate::memory::lemma_granted_run_bounds(
                    allocator,
                    frame.number as int,
                    granted as int,
                );
                vstd::arithmetic::div_mod::lemma_fundamental_div_mod(
                    size + 4095,
                    PAGE_SIZE as int,
                );
                vstd::arithmetic::div_mod::lemma_mod_multiples_basic(
                    frame.number as int,
                    PAGE_SIZE as int,
                );
                vstd::arithmetic::div_mod::lemma_mod_multiples_basic(
                    granted as int,
                    PAGE_SIZE as int,
                );
                vstd::arithmetic::div_mod::lemma_div_multiples_vanish(
                    frame.number as int,
                    PAGE_SIZE as int,
                );
                vstd::arithmetic::div_mod::lemma_div_multiples_vanish(
                    granted as int,
                    PAGE_SIZE as int,
                );
            }
            let base = frame.start_address().get();
            let bytes = granted * PAGE_SIZE;
            Ok((base, bytes))
        },
    }
}

/// Allocate `size` bytes of physical memory anywhere in the 64-bit space.
/// Privileged: fails before touching the allocator unless the caller is
/// the root principal, so a denied request consumes nothing.
pub fn physalloc(size: usize, current: Option<&CallerContext>, allocator: &mut BumpAllocator) -> (r:
    Result<usize, Error>)
    requires
        old(allocator).wf(),
        caller_is_root(current) ==> size + 4095 <= usize::MAX,
    ensures
        final(allocator).wf(),
        current is None ==> r == Err::<usize, Error>(Error::NoSuchProcess) && *final(allocator)
            == *old(allocator),
        current matches Some(c) && c.euid != 0 ==> r == Err::<usize, Error>(
            Error::PermissionDenied,
        ) && *final(allocator) == *old(allocator),
        caller_is_root(current) ==> {
            &&& final(allocator).spec_areas() == old(allocator).spec_areas()
            &&& final(allocator).spec_kernel_start() == old(allocator).spec_kernel_start()
            &&& final(allocator).spec_kernel_end() == old(allocator).spec_kernel_end()
            &&& final(allocator).cursor() >= old(allocator).cursor()
            &&& (r matches Ok(base) ==> {
                let pages = (size + 4095) / (PAGE_SIZE as int);
                &&& base as int % (PAGE_SIZE as int) == 0
                &&& base as int / (PAGE_SIZE as int) >= old(allocator).cursor()
                &&& final(allocator).cursor() == base as int / (PAGE_SIZE as int) + pages
                &&& (base as int / (PAGE_SIZE as int) + pages <= old(allocator).spec_kernel_start()
                    || base as int / (PAGE_SIZE as int) > old(allocator).spec_kernel_end())
                &&& crate::memory::within_some_area(
                    old(allocator).spec_areas(),
                    base as int / (PAGE_SIZE as int),
                    pages,
                )
            })
            &&& (r matches Err(e) ==> e == Error::OutOfMemory)
            // Failure is owed only to a zero size or true exhaustion.
            &&& (size == 0 ==> r == Err::<usize, Error>(Error::OutOfMemory) && *final(allocator)
                == *old(allocator))
            &&& (size > 0 && r == Err::<usize, Error>(Error::OutOfMemory)
                ==> final(allocator).spec_current_area() is None)
            &&& (old(allocator).spec_current_area() matches Some(a) ==> ((size > 0
                && crate::memory::area_avail(a, old(allocator).cursor()) >= (size + 4095) / (
            PAGE_SIZE as int) && !run_hits_kernel(
                old(allocator).cursor(),
                (size + 4095) / (PAGE_SIZE as int),
                old(allocator).spec_kernel_start(),
                old(allocator).spec_kernel_end(),
            )) ==> (r matches Ok(base) && base as int == old(allocator).cursor() * (
            PAGE_SIZE as int))))
        },
{
    if let Err(e) = enforce_root(current) {
        return Err(e);
    }
    proof {
        assert(!partial_requested(PHYSALLOC_SPACE_64) && !space32_requested(PHYSALLOC_SPACE_64)
            && !(space32_requested(PHYSALLOC_SPACE_64) && PHYSALLOC_SPACE_64
            & PHYSALLOC_SPACE_64 != 0)) by (bit_vector);
    }
    match inner_physalloc(size, PHYSALLOC_SPACE_64, None, size, allocator) {
        Ok((base, bytes)) => {
            proof {
                vstd::arithmetic::div_mod::lemma_div_multiples_vanish(
                    (size + 4095) / (PAGE_SIZE as int),
                    PAGE_SIZE as int,
                );
            }
            Ok(base)
        },
        Err(e) => Err(e),
    }
}

/// A raw flag word and byte minimum that the full allocation entry point
/// rejects as invalid: undefined flag bits, a partial request without a
/// recognized strategy selector, a partial minimum of zero or above the
/// size, or both address-space flags at once.
pub open spec fn physalloc3_request_invalid(flags_raw: usize, min: usize, size: usize) -> bool {
    let plain = flags_raw & !PARTIAL_ALLOC_STRATEGY_MASK;
    ||| plain & !(PHYSALLOC_SPACE_32 | PHYSALLOC_SPACE_64 | PHYSALLOC_PARTIAL_ALLOC) != 0
    ||| (plain & PHYSALLOC_PARTIAL_ALLOC != 0 && flags_raw & PARTIAL_ALLOC_STRATEGY_MASK
        != 0x1_0000 && flags_raw & PARTIAL_ALLOC_STRATEGY_MASK != 0x2_0000)
    ||| (plain & PHYSALLOC_PARTIAL_ALLOC != 0 && (min == 0 || min > size))
    ||| (plain & PHYSALLOC_SPACE_32 != 0 && plain & PHYSALLOC_SPACE_64 != 0)
}

/// Allocate physical memory with explicit flags and, for partial
/// allocations, a strategy and a byte minimum, which is updated in place
/// to the number of bytes actually granted. Privileged.
pub fn physalloc3(
    size: usize,
    flags_raw: usize,
    min: &mut usize,
    current: Option<&CallerContext>,
    allocator: &mut BumpAllocator,
) -> (r: Result<usize, Error>)
    requires
        old(allocator).wf(),
        caller_is_root(current) ==> size + 4095 <= usize::MAX,
    ensures
        final(allocator).wf(),
        final(allocator).spec_areas() == old(allocator).spec_areas(),
        final(allocator).spec_kernel_start() == old(allocator).spec_kernel_start(),
        final(allocator).spec_kernel_end() == old(allocator).spec_kernel_end(),
        final(allocator).cursor() >= old(allocator).cursor(),
        current is None ==> r == Err::<usize, Error>(Error::NoSuchProcess) && *final(allocator)
            == *old(allocator) && *final(min) == *old(min),
        current matches Some(c) && c.euid != 0 ==> r == Err::<usize, Error>(
            Error::PermissionDenied,
        ) && *final(allocator) == *old(allocator) && *final(min) == *old(min),
        // The malformed requests, exactly.
        caller_is_root(current) ==> (r == Err::<usize, Error>(Error::InvalidArgument)
            <==> physalloc3_request_invalid(flags_raw, *old(min), size)),
        caller_is_root(current) && r == Err::<usize, Error>(Error::InvalidArgument)
            ==> *final(allocator) == *old(allocator) && *final(min) == *old(min),
        r matches Ok(base) ==> caller_is_root(current) && base as int % (PAGE_SIZE as int) == 0
            && *final(min) >= 1 && *final(min) as int % (PAGE_SIZE as int) == 0 && *final(min)
            as int <= ((size + 4095) / (PAGE_SIZE as int)) * (PAGE_SIZE as int) && (flags_raw & 4
            != 0 ==> *final(min) as int >= ((*old(min) + 4095) / (PAGE_SIZE as int)) * (
        PAGE_SIZE as int)) && (flags_raw & 4 == 0 ==> *final(min) as int == ((size + 4095) / (
        PAGE_SIZE as int)) * (PAGE_SIZE as int)),
        // The granted run, tied to the allocator's cursor and areas.
        r matches Ok(base) ==> {
            &&& base as int / (PAGE_SIZE as int) >= old(allocator).cursor()
            &&& final(allocator).cursor() == base as int / (PAGE_SIZE as int) + *final(min) as int
                / (PAGE_SIZE as int)
            &&& (base as int / (PAGE_SIZE as int) + *final(min) as int / (PAGE_SIZE as int) <= old(
                allocator,
            ).spec_kernel_start() || base as int / (PAGE_SIZE as int) > old(
                allocator,
            ).spec_kernel_end())
            &&& within_some_area(
                old(allocator).spec_areas(),
                base as int / (PAGE_SIZE as int),
                *final(min) as int / (PAGE_SIZE as int),
            )
            &&& ((flags_raw & !PARTIAL_ALLOC_STRATEGY_MASK) & PHYSALLOC_SPACE_32 != 0 ==> base
                + *final(min) <= 0x1_0000_0000)
        },
        // Failure is owed only to a malformed request, a zero size, the
        // 4 GiB cap, or true exhaustion.
        caller_is_root(current) && r == Err::<usize, Error>(Error::OutOfMemory) && size > 0 && (
        flags_raw & !PARTIAL_ALLOC_STRATEGY_MASK) & PHYSALLOC_SPACE_32 == 0
            ==> final(allocator).spec_current_area() is None,
        r matches Err(e) ==> *final(min) == *old(min) && (e == Error::NoSuchProcess || e
            == Error::PermissionDenied || e == Error::InvalidArgument || e == Error::OutOfMemory),
{
    if let Err(e) = enforce_root(current) {
        return Err(e);
    }
    let plain = flags_raw & !PARTIAL_ALLOC_STRATEGY_MASK;
    if plain & !(PHYSALLOC_SPACE_32 | PHYSALLOC_SPACE_64 | PHYSALLOC_PARTIAL_ALLOC) != 0 {
        return Err(Error::InvalidArgument);
    }
    let partial = plain & PHYSALLOC_PARTIAL_ALLOC != 0;
    let strategy = if partial {
        match PartialAllocStrategy::from_raw(flags_raw & PARTIAL_ALLOC_STRATEGY_MASK) {
            Some(strategy) => Some(strategy),
            None => {
                return Err(Error::InvalidArgument);
            },
        }
    } else {
        None
    };
    // A partial request whose minimum is zero or exceeds the size could
    // never be honoured within the documented bounds; reject it up front.
    if partial && (*min == 0 || *min > size) {
        return Err(Error::InvalidArgument);
    }
    proof {
        let f = flags_raw;
        assert((f & !PARTIAL_ALLOC_STRATEGY_MASK) & PHYSALLOC_PARTIAL_ALLOC == f
            & PHYSALLOC_PARTIAL_ALLOC && PHYSALLOC_PARTIAL_ALLOC == 4usize) by (bit_vector);
    }
    match inner_physalloc(size, plain, strategy, if partial { *min } else { size }, allocator) {
        Ok((base, bytes)) => {
            *min = bytes;
            Ok(base)
        },
        Err(e) => Err(e),
    }
}

/// Release previously allocated physical memory. The bootstrap allocator
/// never reclaims, so this is a documented no-op with no double-free
/// detection.
pub fn inner_physfree(physical_address: usize, size: usize, allocator: &mut BumpAllocator) -> (r:
    Result<usize, Error>)
    requires
        size + 4095 <= usize::MAX,
    ensures
        r == Ok::<usize, Error>(0),
        *final(allocator) == *old(allocator),
{
    allocator.deallocate_frames(
        Frame::containing_address(PhysicalAddress::new(physical_address)),
        (size + 4095) / PAGE_SIZE,
    );
    Ok(0)
}

/// The page-table entry flags a map request translates to: always present,
/// user-accessible and non-executable; writable, write-combining (through
/// the huge-page bit reinterpretation) and cache-disabled on request.
pub open spec fn physmap_entry_flags(flags: usize) -> u64 {
    (entry::PRESENT | entry::NO_EXECUTE | entry::USER_ACCESSIBLE) | (if flags & PHYSMAP_WRITE
        != 0 {
        entry::WRITABLE
    } else {
        0
    }) | (if flags & PHYSMAP_WRITE_COMBINE != 0 {
        entry::HUGE_PAGE
    } else {
        0
    }) | (if flags & PHYSMAP_NO_CACHE != 0 {
        entry::NO_CACHE
    } else {
        0
    })
}

/// Where the linear first-fit scan lands, starting at grant `i` with the
/// candidate address `to`: the first candidate gap of more than `full`
/// bytes before some grant, or the end of the last grant.
pub open spec fn scan_gap(s: Seq<Grant>, i: int, to: int, full: int) -> int
    decreases s.len() - i,
{
    if i < 0 || i >= s.len() {
        to
    } else if to + full < s[i].spec_start() {
        to
    } else {
        scan_gap(s, i + 1, s[i].spec_start() + s[i].spec_size(), full)
    }
}

/// The virtual address the map operation chooses for a window of `full`
/// bytes: the lowest unused slot at or above the reserved user-grant base,
/// found by a linear first-fit scan in ascending address order, with no
/// coalescing.
pub open spec fn physmap_destination(s: Seq<Grant>, full: int) -> int {
    scan_gap(s, 0, USER_GRANT_OFFSET as int, full)
}

/// Install a grant exposing the physical range `[physical_address,
/// physical_address + size)` to the caller: the window is widened to frame
/// granularity, placed at the first-fit slot above the user-grant base,
/// and the returned virtual address points at the original, possibly
/// unaligned offset within it.
pub fn inner_physmap(
    physical_address: usize,
    size: usize,
    flags: usize,
    grants: &mut Grants,
) -> (r: Result<usize, Error>)
    requires
        old(grants).wf(),
        size + 8190 <= usize::MAX,
    ensures
        final(grants).wf(),
        size == 0 ==> r == Ok::<usize, Error>(0) && *final(grants) == *old(grants),
        size > 0 ==> ({
            let from = (physical_address as int / (PAGE_SIZE as int)) * (PAGE_SIZE as int);
            let offset = physical_address - from;
            let full = ((offset + size + 4095) / (PAGE_SIZE as int)) * (PAGE_SIZE as int);
            let to = physmap_destination(old(grants)@, full);
            &&& (to + full <= usize::MAX ==> r == Ok::<usize, Error>((to + offset) as usize)
                && final(grants)@ == old(grants)@.insert(
                grants_position(old(grants)@, to),
                (Grant {
                    start: VirtualAddress(to as usize),
                    physical: PhysicalAddress(from as usize),
                    size: full as usize,
                    flags: physmap_entry_flags(flags),
                }),
            ))
            &&& (to + full > usize::MAX ==> r == Err::<usize, Error>(Error::OutOfMemory)
                && *final(grants) == *old(grants))
        }),
{
    if size == 0 {
        return Ok(0);
    }
    let from_address = (physical_address / PAGE_SIZE) * PAGE_SIZE;
    proof {
        vstd::arithmetic::div_mod::lemma_fundamental_div_mod(
            physical_address as int,
            PAGE_SIZE as int,
        );
    }
    let offset = physical_address - from_address;
    let full_size = ((offset + size + 4095) / PAGE_SIZE) * PAGE_SIZE;
    proof {
        vstd::arithmetic::div_mod::lemma_fundamental_div_mod(
            offset + size + 4095,
            PAGE_SIZE as int,
        );
        vstd::arithmetic::div_mod::lemma_mod_multiples_basic(
            ((offset + size + 4095) / (PAGE_SIZE as int)),
            PAGE_SIZE as int,
        );
        vstd::arithmetic::div_mod::lemma_div_is_ordered(
            PAGE_SIZE as int,
            offset + size + 4095,
            PAGE_SIZE as int,
        );
    }
    let entry_flags = (entry::PRESENT | entry::NO_EXECUTE | entry::USER_ACCESSIBLE) | (if flags
        & PHYSMAP_WRITE != 0 {
        entry::WRITABLE
    } else {
        0
    }) | (if flags & PHYSMAP_WRITE_COMBINE != 0 {
        entry::HUGE_PAGE
    } else {
        0
    }) | (if flags & PHYSMAP_NO_CACHE != 0 {
        entry::NO_CACHE
    } else {
        0
    });

    let mut to_address = USER_GRANT_OFFSET;
    let n = grants.len();
    let mut i: usize = 0;
    let ghost s = grants@;
    let ghost full = full_size as int;
    while i < n
        invariant
            old(grants).wf(),
            *grants == *old(grants),
            s == grants@,
            0 <= i <= n,
            n == s.len(),
            size != 0,
            to_address >= USER_GRANT_OFFSET,
            full == full_size,
            PAGE_SIZE <= full_size,
            full_size as int % (PAGE_SIZE as int) == 0,
            from_address == (physical_address as int / (PAGE_SIZE as int)) * (PAGE_SIZE as int),
            offset == physical_address - from_address,
            offset < PAGE_SIZE,
            full == ((offset + size + 4095) / (PAGE_SIZE as int)) * (PAGE_SIZE as int),
            entry_flags == physmap_entry_flags(flags),
            physmap_destination(s, full) == scan_gap(s, i as int, to_address as int, full),
            forall|j: int|
                0 <= j < i ==> (#[trigger] s[j]).spec_start() + s[j].spec_size() <= to_address,
        decreases n - i,
    {
        let g = grants.get(i);
        let gstart = g.start_address().get();
        if gstart > to_address && gstart - to_address > full_size {
            // The gap before this grant holds the window.
            proof {
                assert forall|j: int|
                    0 <= j < s.len() implies ((#[trigger] s[j]).spec_start() + s[j].spec_size()
                    <= to_address || to_address + full <= s[j].spec_start()) by {
                    if j >= i {
                        if j > i {
                            assert(s[i as int].spec_start() + s[i as int].spec_size()
                                <= s[j].spec_start());
                        }
                    }
                }
            }
            grants.insert(
                Grant {
                    start: VirtualAddress::new(to_address),
                    physical: PhysicalAddress::new(from_address),
                    size: full_size,
                    flags: entry_flags,
                },
            );
            return Ok(to_address + offset);
        }
        to_address = gstart + g.size();
        i += 1;
    }
    if full_size > usize::MAX - to_address {
        // The user-grant window itself is exhausted.
        return Err(Error::OutOfMemory);
    }
    proof {
        assert forall|j: int|
            0 <= j < s.len() implies ((#[trigger] s[j]).spec_start() + s[j].spec_size()
            <= to_address || to_address + full <= s[j].spec_start()) by {}
    }
    grants.insert(
        Grant {
            start: VirtualAddress::new(to_address),
            physical: PhysicalAddress::new(from_address),
            size: full_size,
            flags: entry_flags,
        },
    );
    Ok(to_address + offset)
}

/// Expose physical memory to the caller. Privileged: the check precedes
/// any change to the address space.
pub fn physmap(
    physical_address: usize,
    size: usize,
    flags: usize,
    current: &mut CallerContext,
) -> (r: Result<usize, Error>)
    requires
        old(current).grants.wf(),
        old(current).euid == 0 ==> size + 8190 <= usize::MAX,
    ensures
        final(current).euid == old(current).euid,
        old(current).euid != 0 ==> r == Err::<usize, Error>(Error::PermissionDenied) && *final(current) == *old(current),
        old(current).euid == 0 ==> {
            &&& final(current).grants.wf()
            &&& (size == 0 ==> r == Ok::<usize, Error>(0) && *final(current) == *old(current))
            &&& (size > 0 ==> ({
                let from = (physical_address as int / (PAGE_SIZE as int)) * (PAGE_SIZE as int);
                let offset = physical_address - from;
                let full = ((offset + size + 4095) / (PAGE_SIZE as int)) * (PAGE_SIZE as int);
                let to = physmap_destination(old(current).grants@, full);
                &&& (to + full <= usize::MAX ==> r == Ok::<usize, Error>((to + offset) as usize)
                    && final(current).grants@ == old(current).grants@.insert(
                    grants_position(old(current).grants@, to),
                    (Grant {
                        start: VirtualAddress(to as usize),
                        physical: PhysicalAddress(from as usize),
                        size: full as usize,
                        flags: physmap_entry_flags(flags),
                    }),
                ))
                &&& (to + full > usize::MAX ==> r == Err::<usize, Error>(Error::OutOfMemory)
                    && *final(current) == *old(current))
            }))
        },
{
    if current.euid != 0 {
        return Err(Error::PermissionDenied);
    }
    inner_physmap(physical_address, size, flags, &mut current.grants)
}

/// Remove the grant covering `virtual_address`; an address no grant
/// covers is a bad address, and the null address is accepted and ignored.
/// The grant list is this model's record of the address space's
/// physical-memory mappings; reinstating the translation-unit state for
/// the removed range is the address-space teardown that lives outside
/// this core.
pub fn inner_physunmap(virtual_address: usize, grants: &mut Grants) -> (r: Result<usize, Error>)
    requires
        old(grants).wf(),
    ensures
        final(grants).wf(),
        virtual_address == 0 ==> r == Ok::<usize, Error>(0) && *final(grants) == *old(grants),
        virtual_address != 0 ==> {
            &&& ((exists|i: int|
                0 <= i < old(grants)@.len() && grant_covers(
                    #[trigger] old(grants)@[i],
                    virtual_address as int,
                )) ==> r == Ok::<usize, Error>(0) && exists|i: int|
                0 <= i < old(grants)@.len() && grant_covers(
                    #[trigger] old(grants)@[i],
                    virtual_address as int,
                ) && final(grants)@ == old(grants)@.remove(i))
            &&& (!(exists|i: int|
                0 <= i < old(grants)@.len() && grant_covers(
                    #[trigger] old(grants)@[i],
                    virtual_address as int,
                )) ==> r == Err::<usize, Error>(Error::BadAddress) && *final(grants) == *old(
                grants,
            ))
        },
{
    if virtual_address == 0 {
        return Ok(0);
    }
    match grants.contains(VirtualAddress::new(virtual_address)) {
        Some(grant) => {
            let region = Region::from(&grant);
            match grants.take(&region) {
                Some(_grant) => Ok(0),
                None => {
                    proof {
                        assert(false);
                    }
                    Err(Error::BadAddress)
                },
            }
        },
        None => Err(Error::BadAddress),
    }
}

/// Unmap a physical-memory grant. Privileged: the check precedes any
/// change to the address space. As with the inner operation, the grant
/// list is the model of the mapping; the translation-unit teardown for
/// the range belongs to the address-space management outside this core.
pub fn physunmap(virtual_address: usize, current: &mut CallerContext) -> (r: Result<usize, Error>)
    requires
        old(current).grants.wf(),
    ensures
        final(current).euid == old(current).euid,
        old(current).euid != 0 ==> r == Err::<usize, Error>(Error::PermissionDenied) && *final(current) == *old(current),
        old(current).euid == 0 ==> {
            &&& final(current).grants.wf()
            &&& (virtual_address == 0 ==> r == Ok::<usize, Error>(0) && *final(current) == *old(
                current,
            ))
            &&& (virtual_address != 0 && !(exists|i: int|
                0 <= i < old(current).grants@.len() && grant_covers(
                    #[trigger] old(current).grants@[i],
                    virtual_address as int,
                )) ==> r == Err::<usize, Error>(Error::BadAddress) && *final(current) == *old(
                current,
            ))
            &&& (virtual_address != 0 && (exists|i: int|
                0 <= i < old(current).grants@.len() && grant_covers(
                    #[trigger] old(current).grants@[i],
                    virtual_address as int,
                )) ==> r == Ok::<usize, Error>(0) && exists|i: int|
                0 <= i < old(current).grants@.len() && grant_covers(
                    #[trigger] old(current).grants@[i],
                    virtual_address as int,
                ) && final(current).grants@ == old(current).grants@.remove(i))
        },
{
    if current.euid != 0 {
        return Err(Error::PermissionDenied);
    }
    inner_physunmap(virtual_address, &mut current.grants)
}

/// Resolve a virtual address to its physical backing by walking the active
/// table; an unmapped address is a bad address. Privileged.
pub fn virttophys(
    virtual_address: usize,
    current: Option<&CallerContext>,
    active_table: &ActivePageTable,
) -> (r: Result<usize, Error>)
    requires
        active_table.wf(),
    ensures
        current is None ==> r == Err::<usize, Error>(Error::NoSuchProcess),
        current matches Some(c) && c.euid != 0 ==> r == Err::<usize, Error>(
            Error::PermissionDenied,
        ),
        caller_is_root(current) ==> {
            let page = virtual_address / PAGE_SIZE;
            let offset = virtual_address % PAGE_SIZE;
            &&& (active_table@.contains_key(page) ==> r == Ok::<usize, Error>(
                (active_table@[page].0 * PAGE_SIZE + offset) as usize,
            ))
            &&& (!active_table@.contains_key(page) ==> r == Err::<usize, Error>(
                Error::BadAddress,
            ))
        },
{
    if let Err(e) = enforce_root(current) {
        return Err(e);
    }
    match active_table.translate(VirtualAddress::new(virtual_address)) {
        Some(physical_address) => Ok(physical_address.get()),
        None => Err(Error::BadAddress),
    }
}

/// Release physical memory. Privileged.
pub fn physfree(
    physical_address: usize,
    size: usize,
    current: Option<&CallerContext>,
    allocator: &mut BumpAllocator,
) -> (r: Result<usize, Error>)
    requires
        caller_is_root(current) ==> size + 4095 <= usize::MAX,
    ensures
        *final(allocator) == *old(allocator),
        current is None ==> r == Err::<usize, Error>(Error::NoSuchProcess),
        current matches Some(c) && c.euid != 0 ==> r == Err::<usize, Error>(
            Error::PermissionDenied,
        ),
        caller_is_root(current) ==> r == Ok::<usize, Error>(0),
{
    if let Err(e) = enforce_root(current) {
        return Err(e);
    }
    inner_physfree(physical_address, size, allocator)
}

} // verus!
