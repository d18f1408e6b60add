//! Physical frames and the bootstrap bump frame allocator: a cursor walks a
//! list of firmware-reported memory areas, permanently excluding the
//! kernel's own image, and never reclaims (deallocation is a documented
//! no-op until a real allocator replaces this one).

use vstd::prelude::*;
use crate::paging::{PhysicalAddress, PAGE_SIZE};

verus! {

/// Request frames whose end address stays below 4 GiB.
pub const PHYSALLOC_SPACE_32: usize = 1;
/// Request frames anywhere in the 64-bit space (the default).
pub const PHYSALLOC_SPACE_64: usize = 2;
/// Accept fewer frames than asked for, down to a caller-given minimum.
pub const PHYSALLOC_PARTIAL_ALLOC: usize = 4;

/// How a partial allocation picks its run when fewer frames than requested
/// are available; the bootstrap allocator accepts but does not distinguish
/// these.
#[derive(Clone, Copy, Debug, PartialEq, Eq, Structural)]
pub enum PartialAllocStrategy {
    /// Prefer the run the allocator considers cheapest.
    Optimal,
    /// Prefer the largest contiguous run.
    GreatestRange,
}

impl PartialAllocStrategy {
    /// Decode a strategy from the masked bits of a raw flag word.
    pub fn from_raw(raw: usize) -> (r: Option<Self>)
        ensures
            raw == 0x1_0000 ==> r == Some(PartialAllocStrategy::Optimal),
            raw == 0x2_0000 ==> r == Some(PartialAllocStrategy::GreatestRange),
            raw != 0x1_0000 && raw != 0x2_0000 ==> r is None,
    {
        if raw == 0x1_0000 {
            Some(PartialAllocStrategy::Optimal)
        } else if raw == 0x2_0000 {
            Some(PartialAllocStrategy::GreatestRange)
        } else {
            None
        }
    }
}

/// One physical-memory allocation unit, identified by its index: the frame's
/// start address divided by the frame size.
#[derive(Debug, PartialEq, Eq, PartialOrd, Ord, Structural)]
pub struct Frame {
    pub number: usize,
}

impl Frame {
    /// The frame covering the given physical address.
    pub fn containing_address(address: PhysicalAddress) -> (r: Frame)
        ensures
            r.number == address.0 / PAGE_SIZE,
    {
        Frame { number: address.0 / PAGE_SIZE }
    }

    /// The physical address of the first byte of this frame.
    pub fn start_address(&self) -> (r: PhysicalAddress)
        requires
            self.number * PAGE_SIZE <= usize::MAX,
        ensures
            r.0 == self.number * PAGE_SIZE,
    {
        PhysicalAddress::new(self.number * PAGE_SIZE)
    }
}

/// One firmware-reported physical memory region, immutable after boot.
#[derive(Clone, Copy, Debug, PartialEq, Eq, Structural)]
pub struct MemoryArea {
    pub base_addr: usize,
    pub length: usize,
}

/// A well-formed area is non-empty, ends within the address space, and lies
/// below the 52-bit physical-address limit that page-table entries encode.
pub open spec fn area_wf(a: MemoryArea) -> bool {
    &&& a.length >= 1
    &&& a.base_addr + a.length <= usize::MAX
    &&& a.base_addr + a.length <= 0x10_0000_0000_0000
}

/// The first frame of an area.
pub open spec fn area_start_frame(a: MemoryArea) -> int {
    a.base_addr as int / PAGE_SIZE as int
}

/// The last frame of an area.
pub open spec fn area_last_frame(a: MemoryArea) -> int {
    (a.base_addr + a.length - 1) / PAGE_SIZE as int
}

/// An area still holds frames at or beyond the cursor.
pub open spec fn is_candidate(a: MemoryArea, cursor: int) -> bool {
    area_last_frame(a) >= cursor
}

/// The area a scan of the first `n` areas selects: the lowest base address
/// among those whose last frame is at or beyond the cursor, later areas
/// winning ties.
pub open spec fn chosen_area_upto(areas: Seq<MemoryArea>, cursor: int, n: int) -> Option<
    MemoryArea,
>
    decreases n,
{
    if n <= 0 {
        None
    } else {
        let prev = chosen_area_upto(areas, cursor, n - 1);
        let a = areas[n - 1];
        if is_candidate(a, cursor) && (prev is None || a.base_addr
            <= prev->Some_0.base_addr) {
            Some(a)
        } else {
            prev
        }
    }
}

/// The area the allocator advances to for a given cursor.
pub open spec fn chosen_area(areas: Seq<MemoryArea>, cursor: int) -> Option<MemoryArea> {
    chosen_area_upto(areas, cursor, areas.len() as int)
}

/// How many of the first `n` areas still hold frames at or beyond the cursor.
pub open spec fn num_candidates_upto(areas: Seq<MemoryArea>, cursor: int, n: int) -> int
    decreases n,
{
    if n <= 0 {
        0
    } else {
        num_candidates_upto(areas, cursor, n - 1) + if is_candidate(areas[n - 1], cursor) {
            1int
        } else {
            0int
        }
    }
}

/// How many areas still hold frames at or beyond the cursor.
pub open spec fn num_candidates(areas: Seq<MemoryArea>, cursor: int) -> int {
    num_candidates_upto(areas, cursor, areas.len() as int)
}

/// The number of frames an area spans.
pub open spec fn area_frames(a: MemoryArea) -> int {
    area_last_frame(a) - area_start_frame(a) + 1
}

/// How many frames an area still offers at or beyond the cursor.
pub open spec fn area_avail(a: MemoryArea, cursor: int) -> int {
    if area_last_frame(a) >= cursor {
        area_last_frame(a) - cursor + 1
    } else {
        0
    }
}

/// The request asked for frames below 4 GiB.
pub open spec fn space32_requested(flags: usize) -> bool {
    flags & PHYSALLOC_SPACE_32 != 0
}

/// The request accepts a partial allocation.
pub open spec fn partial_requested(flags: usize) -> bool {
    flags & PHYSALLOC_PARTIAL_ALLOC != 0
}

/// The area can satisfy the request from the cursor: the full count, or at
/// least the minimum when a partial allocation is accepted.
pub open spec fn area_serves(a: MemoryArea, cursor: int, count: int, flags: usize, min: int) -> bool {
    ||| area_avail(a, cursor) >= count
    ||| (partial_requested(flags) && area_avail(a, cursor) >= min)
}

/// The run length granted from an area that serves the request: the full
/// count, shrunk to what the area still offers when a partial allocation is
/// accepted.
pub open spec fn granted_len(a: MemoryArea, cursor: int, count: int, flags: usize) -> int {
    if partial_requested(flags) && area_avail(a, cursor) < count {
        area_avail(a, cursor)
    } else {
        count
    }
}

/// The run of `len` frames from `start` lies entirely inside one of the
/// reported areas.
pub open spec fn within_some_area(areas: Seq<MemoryArea>, start: int, len: int) -> bool {
    exists|i: int|
        0 <= i < areas.len() && area_start_frame(#[trigger] areas[i]) <= start && start + len - 1
            <= area_last_frame(areas[i])
}

/// The run of `len` frames from `start` overlaps the kernel image frames.
pub open spec fn run_hits_kernel(start: int, len: int, ks: int, ke: int) -> bool {
    start <= ke && start + len - 1 >= ks
}

/// The run of `len` frames from `start` ends at or beyond the 4 GiB
/// boundary.
pub open spec fn run_crosses_4g(start: int, len: int) -> bool {
    (start + len) * PAGE_SIZE as int >= 0x1_0000_0000
}

/// How many frames of `[lo, hi]` are outside the kernel image and at or
/// beyond the cursor.
pub open spec fn free_in_range(lo: int, hi: int, cursor: int, ks: int, ke: int) -> int
    decreases hi - lo + 1,
{
    if lo > hi {
        0
    } else {
        free_in_range(lo, hi - 1, cursor, ks, ke) + if ks <= hi <= ke {
            0int
        } else if hi >= cursor {
            1int
        } else {
            0int
        }
    }
}

/// How many frames of `[lo, hi]` are inside the kernel image or behind the
/// cursor.
pub open spec fn used_in_range(lo: int, hi: int, cursor: int, ks: int, ke: int) -> int
    decreases hi - lo + 1,
{
    if lo > hi {
        0
    } else {
        used_in_range(lo, hi - 1, cursor, ks, ke) + if ks <= hi <= ke {
            1int
        } else if hi >= cursor {
            0int
        } else {
            1int
        }
    }
}

/// Free frames over the first `n` areas.
pub open spec fn free_frames_upto(
    areas: Seq<MemoryArea>,
    n: int,
    cursor: int,
    ks: int,
    ke: int,
) -> int
    decreases n,
{
    if n <= 0 {
        0
    } else {
        free_frames_upto(areas, n - 1, cursor, ks, ke) + free_in_range(
            area_start_frame(areas[n - 1]),
            area_last_frame(areas[n - 1]),
            cursor,
            ks,
            ke,
        )
    }
}

/// Used frames over the first `n` areas.
pub open spec fn used_frames_upto(
    areas: Seq<MemoryArea>,
    n: int,
    cursor: int,
    ks: int,
    ke: int,
) -> int
    decreases n,
{
    if n <= 0 {
        0
    } else {
        used_frames_upto(areas, n - 1, cursor, ks, ke) + used_in_range(
            area_start_frame(areas[n - 1]),
            area_last_frame(areas[n - 1]),
            cursor,
            ks,
            ke,
        )
    }
}

/// Total frames spanned by the first `n` areas.
pub open spec fn total_frames_upto(areas: Seq<MemoryArea>, n: int) -> int
    decreases n,
{
    if n <= 0 {
        0
    } else {
        total_frames_upto(areas, n - 1) + area_frames(areas[n - 1])
    }
}

/// Total frames spanned by all areas.
pub open spec fn total_frames(areas: Seq<MemoryArea>) -> int {
    total_frames_upto(areas, areas.len() as int)
}

proof fn lemma_range_counts_bounded(lo: int, hi: int, cursor: int, ks: int, ke: int)
    ensures
        0 <= free_in_range(lo, hi, cursor, ks, ke),
        0 <= used_in_range(lo, hi, cursor, ks, ke),
        lo <= hi + 1 ==> free_in_range(lo, hi, cursor, ks, ke) <= hi - lo + 1,
        lo <= hi + 1 ==> used_in_range(lo, hi, cursor, ks, ke) <= hi - lo + 1,
    decreases hi - lo + 1,
{
    if lo <= hi {
        lemma_range_counts_bounded(lo, hi - 1, cursor, ks, ke);
    }
}

proof fn lemma_range_counts_partition(lo: int, hi: int, cursor: int, ks: int, ke: int)
    requires
        lo <= hi + 1,
    ensures
        free_in_range(lo, hi, cursor, ks, ke) + used_in_range(lo, hi, cursor, ks, ke) == hi - lo
            + 1,
    decreases hi - lo + 1,
{
    if lo <= hi {
        lemma_range_counts_partition(lo, hi - 1, cursor, ks, ke);
    }
}

proof fn lemma_counts_partition_upto(areas: Seq<MemoryArea>, n: int, cursor: int, ks: int, ke: int)
    requires
        0 <= n <= areas.len(),
        forall|i: int| 0 <= i < areas.len() ==> area_wf(#[trigger] areas[i]),
    ensures
        free_frames_upto(areas, n, cursor, ks, ke) + used_frames_upto(areas, n, cursor, ks, ke)
            == total_frames_upto(areas, n),
    decreases n,
{
    if n > 0 {
        lemma_counts_partition_upto(areas, n - 1, cursor, ks, ke);
        lemma_area_frames_nonneg(areas[n - 1]);
        lemma_range_counts_partition(
            area_start_frame(areas[n - 1]),
            area_last_frame(areas[n - 1]),
            cursor,
            ks,
            ke,
        );
    }
}

proof fn lemma_area_frames_nonneg(a: MemoryArea)
    requires
        area_wf(a),
    ensures
        area_frames(a) >= 1,
{
    vstd::arithmetic::div_mod::lemma_div_is_ordered(
        a.base_addr as int,
        a.base_addr + a.length - 1,
        PAGE_SIZE as int,
    );
}

proof fn lemma_total_frames_upto_bounds(areas: Seq<MemoryArea>, n: int)
    requires
        0 <= n <= areas.len(),
        forall|i: int| 0 <= i < areas.len() ==> area_wf(#[trigger] areas[i]),
    ensures
        0 <= total_frames_upto(areas, n) <= total_frames(areas),
    decreases areas.len() - n,
{
    lemma_total_frames_upto_nonneg(areas, n);
    if n < areas.len() {
        lemma_area_frames_nonneg(areas[n]);
        lemma_total_frames_upto_bounds(areas, n + 1);
    }
}

proof fn lemma_total_frames_upto_nonneg(areas: Seq<MemoryArea>, n: int)
    requires
        0 <= n <= areas.len(),
        forall|i: int| 0 <= i < areas.len() ==> area_wf(#[trigger] areas[i]),
    ensures
        total_frames_upto(areas, n) >= 0,
    decreases n,
{
    if n > 0 {
        lemma_area_frames_nonneg(areas[n - 1]);
        lemma_total_frames_upto_nonneg(areas, n - 1);
    }
}

proof fn lemma_chosen_area_upto_props(areas: Seq<MemoryArea>, cursor: int, n: int)
    requires
        0 <= n <= areas.len(),
    ensures
        chosen_area_upto(areas, cursor, n) matches Some(a) ==> {
            &&& is_candidate(a, cursor)
            &&& exists|i: int| 0 <= i < n && areas[i] == a
            &&& forall|i: int|
                0 <= i < n && is_candidate(#[trigger] areas[i], cursor) ==> a.base_addr
                    <= areas[i].base_addr
        },
        chosen_area_upto(areas, cursor, n) is None ==> forall|i: int|
            0 <= i < n ==> !is_candidate(#[trigger] areas[i], cursor),
    decreases n,
{
    if n > 0 {
        lemma_chosen_area_upto_props(areas, cursor, n - 1);
    }
}

/// What the allocator's scan for the next area guarantees.
pub proof fn lemma_chosen_area_props(areas: Seq<MemoryArea>, cursor: int)
    ensures
        chosen_area(areas, cursor) matches Some(a) ==> {
            &&& is_candidate(a, cursor)
            &&& exists|i: int| 0 <= i < areas.len() && areas[i] == a
            &&& forall|i: int|
                0 <= i < areas.len() && is_candidate(#[trigger] areas[i], cursor)
                    ==> a.base_addr <= areas[i].base_addr
        },
        chosen_area(areas, cursor) is None ==> forall|i: int|
            0 <= i < areas.len() ==> !is_candidate(#[trigger] areas[i], cursor),
{
    lemma_chosen_area_upto_props(areas, cursor, areas.len() as int);
}

proof fn lemma_num_candidates_upto_monotone(areas: Seq<MemoryArea>, c1: int, c2: int, n: int)
    requires
        c1 <= c2,
        0 <= n <= areas.len(),
    ensures
        num_candidates_upto(areas, c2, n) <= num_candidates_upto(areas, c1, n),
        num_candidates_upto(areas, c1, n) >= 0,
        num_candidates_upto(areas, c2, n) >= 0,
    decreases n,
{
    if n > 0 {
        lemma_num_candidates_upto_monotone(areas, c1, c2, n - 1);
    }
}

proof fn lemma_num_candidates_drops(areas: Seq<MemoryArea>, c1: int, c2: int, i: int)
    requires
        c1 <= c2,
        0 <= i < areas.len(),
        is_candidate(areas[i], c1),
        !is_candidate(areas[i], c2),
    ensures
        num_candidates(areas, c2) < num_candidates(areas, c1),
{
    lemma_num_candidates_drops_upto(areas, c1, c2, i, areas.len() as int);
}

proof fn lemma_num_candidates_drops_upto(areas: Seq<MemoryArea>, c1: int, c2: int, i: int, n: int)
    requires
        c1 <= c2,
        0 <= i < n <= areas.len(),
        is_candidate(areas[i], c1),
        !is_candidate(areas[i], c2),
    ensures
        num_candidates_upto(areas, c2, n) < num_candidates_upto(areas, c1, n),
    decreases n,
{
    if i == n - 1 {
        lemma_num_candidates_upto_monotone(areas, c1, c2, n - 1);
    } else {
        lemma_num_candidates_drops_upto(areas, c1, c2, i, n - 1);
    }
}

/// Tracks which physical frames are still free: a cursor that only advances,
/// the area it is currently consuming, and the kernel image range that is
/// never handed out.
pub struct BumpAllocator {
    next_free_frame: Frame,
    current_area: Option<MemoryArea>,
    areas: Vec<MemoryArea>,
    kernel_start: Frame,
    kernel_end: Frame,
}

impl BumpAllocator {
    /// The next frame the allocator would try to hand out.
    pub closed spec fn cursor(&self) -> int {
        self.next_free_frame.number as int
    }

    /// The firmware-reported areas the allocator draws from.
    pub closed spec fn spec_areas(&self) -> Seq<MemoryArea> {
        self.areas@
    }

    /// The area currently being consumed.
    pub closed spec fn spec_current_area(&self) -> Option<MemoryArea> {
        self.current_area
    }

    /// First frame of the kernel image.
    pub closed spec fn spec_kernel_start(&self) -> int {
        self.kernel_start.number as int
    }

    /// Last frame of the kernel image.
    pub closed spec fn spec_kernel_end(&self) -> int {
        self.kernel_end.number as int
    }

    /// Structural well-formedness: sane areas, a sane kernel range, and a
    /// current area that is one of the reported areas, already reached by
    /// the cursor.
    pub closed spec fn wf(&self) -> bool {
        &&& forall|i: int| 0 <= i < self.areas@.len() ==> area_wf(#[trigger] self.areas@[i])
        &&& total_frames(self.areas@) <= usize::MAX
        &&& self.kernel_start.number <= self.kernel_end.number
        &&& self.kernel_end.number < usize::MAX
        &&& match self.current_area {
            Some(a) => {
                &&& exists|i: int| 0 <= i < self.areas@.len() && self.areas@[i] == a
                &&& self.cursor() >= area_start_frame(a)
            },
            None => true,
        }
    }

    /// Termination measure for the allocator's retry recursion.
    pub closed spec fn measure(&self) -> int {
        2 * num_candidates(self.areas@, self.cursor()) + (if self.cursor()
            <= self.spec_kernel_end() {
            2int
        } else {
            0int
        }) + (match self.current_area {
            Some(a) => if is_candidate(a, self.cursor()) {
                0int
            } else {
                1int
            },
            None => 1int,
        })
    }

    /// Build an allocator over the given areas, excluding the kernel image
    /// range, and advance to the first usable area.
    pub fn new(kernel_start: usize, kernel_end: usize, memory_areas: Vec<MemoryArea>) -> (r: Self)
        requires
            forall|i: int|
                0 <= i < memory_areas@.len() ==> area_wf(#[trigger] memory_areas@[i]),
            total_frames(memory_areas@) <= usize::MAX,
            kernel_start <= kernel_end,
            kernel_end / PAGE_SIZE < usize::MAX,
        ensures
            r.wf(),
            r.spec_areas() == memory_areas@,
            r.spec_kernel_start() == kernel_start as int / PAGE_SIZE as int,
            r.spec_kernel_end() == kernel_end as int / PAGE_SIZE as int,
            r.spec_current_area() == chosen_area(memory_areas@, 0),
            r.cursor() == match chosen_area(memory_areas@, 0) {
                Some(a) => if area_start_frame(a) > 0 {
                    area_start_frame(a)
                } else {
                    0int
                },
                None => 0int,
            },
    {
        let mut allocator = Self {
            next_free_frame: Frame::containing_address(PhysicalAddress::new(0)),
            current_area: None,
            areas: memory_areas,
            kernel_start: Frame::containing_address(PhysicalAddress::new(kernel_start)),
            kernel_end: Frame::containing_address(PhysicalAddress::new(kernel_end)),
        };
        allocator.choose_next_area();
        proof {
            lemma_chosen_area_props(allocator.areas@, 0);
        }
        allocator
    }

    /// Select the lowest-base area whose last frame is still at or beyond
    /// the cursor, and pull the cursor up to its first frame.
    fn choose_next_area(&mut self)
        requires
            forall|i: int|
                0 <= i < old(self).areas@.len() ==> area_wf(#[trigger] old(self).areas@[i]),
        ensures
            final(self).current_area == chosen_area(old(self).areas@, old(self).cursor()),
            final(self).cursor() == match chosen_area(old(self).areas@, old(self).cursor()) {
                Some(a) => if area_start_frame(a) > old(self).cursor() {
                    area_start_frame(a)
                } else {
                    old(self).cursor()
                },
                None => old(self).cursor(),
            },
            final(self).areas == old(self).areas,
            final(self).kernel_start == old(self).kernel_start,
            final(self).kernel_end == old(self).kernel_end,
    {
        let mut best: Option<MemoryArea> = None;
        let mut idx: usize = 0;
        let cursor = self.next_free_frame.number;
        while idx < self.areas.len()
            invariant
                0 <= idx <= self.areas@.len(),
                cursor == self.cursor(),
                forall|i: int| 0 <= i < self.areas@.len() ==> area_wf(#[trigger] self.areas@[i]),
                best == chosen_area_upto(self.areas@, cursor as int, idx as int),
            decreases self.areas@.len() - idx,
        {
            let area = self.areas[idx];
            let last_address = area.base_addr + area.length - 1;
            if last_address / PAGE_SIZE >= cursor {
                match best {
                    Some(b) => {
                        if area.base_addr <= b.base_addr {
                            best = Some(area);
                        }
                    },
                    None => {
                        best = Some(area);
                    },
                }
            }
            idx += 1;
        }
        self.current_area = best;

        if let Some(area) = self.current_area {
            let start_frame = Frame::containing_address(PhysicalAddress::new(area.base_addr));
            if self.next_free_frame.number < start_frame.number {
                self.next_free_frame = start_frame;
            }
        }
    }

    /// Allocate `count` contiguous frames, or fewer (down to `min`) when the
    /// flags accept a partial allocation. The returned run starts at the
    /// cursor after any forced advancement, never overlaps the kernel image,
    /// lies inside one reported area, and respects the 4 GiB cap when
    /// `PHYSALLOC_SPACE_32` is set; the cursor moves past the granted run
    /// and never rewinds.
    pub fn allocate_frames3(
        &mut self,
        count: usize,
        flags: usize,
        strategy: Option<PartialAllocStrategy>,
        min: usize,
    ) -> (r: Option<(Frame, usize)>)
        requires
            old(self).wf(),
            partial_requested(flags) ==> 1 <= min <= count,
        ensures
            final(self).wf(),
            final(self).spec_areas() == old(self).spec_areas(),
            final(self).spec_kernel_start() == old(self).spec_kernel_start(),
            final(self).spec_kernel_end() == old(self).spec_kernel_end(),
            final(self).cursor() >= old(self).cursor(),
            count == 0 ==> r is None && *final(self) == *old(self),
            old(self).spec_current_area() is None ==> r is None && *final(self) == *old(self),
            r matches Some((f, actual)) ==> {
                &&& 1 <= actual <= count
                &&& (partial_requested(flags) ==> min <= actual)
                &&& (!partial_requested(flags) ==> actual == count)
                &&& f.number >= old(self).cursor()
                &&& final(self).cursor() == f.number + actual
                &&& !run_hits_kernel(
                    f.number as int,
                    actual as int,
                    old(self).spec_kernel_start(),
                    old(self).spec_kernel_end(),
                )
                &&& within_some_area(old(self).spec_areas(), f.number as int, actual as int)
                &&& (space32_requested(flags) ==> !run_crosses_4g(f.number as int, actual as int))
            },
            r is None && !space32_requested(flags) && count > 0 ==> final(self).spec_current_area() is None,
            // The request is answered from the current area whenever it can
            // serve the minimum; the 4 GiB cap fails the call on the spot,
            // with nothing consumed and no region skipped.
            old(self).spec_current_area() matches Some(a) ==> ((count > 0 && area_serves(
                a,
                old(self).cursor(),
                count as int,
                flags,
                min as int,
            )) ==> {
                let len = granted_len(a, old(self).cursor(), count as int, flags);
                &&& (space32_requested(flags) && run_crosses_4g(old(self).cursor(), len)) ==> (
                r is None && *final(self) == *old(self))
                &&& (!(space32_requested(flags) && run_crosses_4g(old(self).cursor(), len))
                    && !run_hits_kernel(
                    old(self).cursor(),
                    len,
                    old(self).spec_kernel_start(),
                    old(self).spec_kernel_end(),
                )) ==> {
                    &&& r matches Some((f, actual)) && f.number == old(self).cursor()
                        && actual == len
                    &&& final(self).cursor() == old(self).cursor() + len
                }
            }),
        decreases self.measure(),
    {
        if count == 0 {
            return None;
        }
        let area = match self.current_area {
            Some(area) => area,
            None => {
                return None;
            },
        };
        proof {
            let i = choose|i: int|
                0 <= i < self.areas@.len() && self.areas@[i] == area;
            assert(area_wf(area));
        }
        let space32 = flags & PHYSALLOC_SPACE_32 != 0;
        let partial_alloc = flags & PHYSALLOC_PARTIAL_ALLOC != 0;
        let cursor = self.next_free_frame.number;

        let last_address = area.base_addr + area.length - 1;
        let current_area_last_frame = last_address / PAGE_SIZE;
        let avail = if current_area_last_frame >= cursor {
            current_area_last_frame - cursor + 1
        } else {
            0
        };

        if avail < count && (!partial_alloc || avail < min) {
            // This area cannot serve even the minimum: its remainder is
            // skipped for good, and the scan advances to the next area.
            let ghost pre = *self;
            let ghost i = choose|i: int|
                0 <= i < self.areas@.len() && self.areas@[i] == area;
            if current_area_last_frame >= cursor {
                self.next_free_frame = Frame { number: current_area_last_frame + 1 };
            }
            let ghost mid = *self;
            self.choose_next_area();
            proof {
                lemma_chosen_area_props(pre.areas@, mid.cursor());
                lemma_num_candidates_upto_monotone(
                    pre.areas@,
                    pre.cursor(),
                    self.cursor(),
                    pre.areas@.len() as int,
                );
                if is_candidate(area, pre.cursor()) {
                    lemma_num_candidates_drops(pre.areas@, pre.cursor(), self.cursor(), i);
                }
            }
            if self.current_area.is_none() {
                return None;
            }
            proof {
                let b = self.current_area->Some_0;
                let j = choose|j: int|
                    0 <= j < self.areas@.len() && self.areas@[j] == b;
                assert(area_wf(self.areas@[j]));
                vstd::arithmetic::div_mod::lemma_div_is_ordered(
                    b.base_addr as int,
                    b.base_addr + b.length - 1,
                    PAGE_SIZE as int,
                );
                assert(is_candidate(b, self.cursor()));
                assert(self.wf());
                assert(0 <= self.measure() < pre.measure());
            }
            return self.allocate_frames3(count, flags, strategy, min);
        }

        let actual_size = if partial_alloc && avail < count {
            avail
        } else {
            count
        };
        let start_frame = Frame { number: cursor };
        let end_frame_number = cursor + actual_size - 1;

        if space32 && end_frame_number >= 0xF_FFFF {
            // A capped request that would end at or past 4 GiB fails here,
            // before any region is skipped on its account.
            proof {
                let e = end_frame_number as int;
                assert((e + 1) * PAGE_SIZE as int >= 0x1_0000_0000);
            }
            return None;
        }

        if start_frame.number <= self.kernel_end.number && end_frame_number
            >= self.kernel_start.number {
            // The run overlaps the kernel image: jump past it and retry.
            let ghost pre = *self;
            let ghost i = choose|i: int|
                0 <= i < self.areas@.len() && self.areas@[i] == area;
            self.next_free_frame = Frame { number: self.kernel_end.number + 1 };
            proof {
                lemma_num_candidates_upto_monotone(
                    pre.areas@,
                    pre.cursor(),
                    self.cursor(),
                    pre.areas@.len() as int,
                );
                assert(0 <= i < self.areas@.len() && self.areas@[i] == area);
                assert(is_candidate(area, pre.cursor()));
                assert(self.wf());
                assert(0 <= self.measure() < pre.measure());
            }
            return self.allocate_frames3(count, flags, strategy, min);
        }

        self.next_free_frame = Frame { number: cursor + actual_size };
        proof {
            let i = choose|i: int|
                0 <= i < self.areas@.len() && self.areas@[i] == area;
            assert(area_start_frame(self.areas@[i]) <= start_frame.number && start_frame.number
                + actual_size - 1 <= area_last_frame(self.areas@[i]));
            assert(within_some_area(
                self.areas@,
                start_frame.number as int,
                actual_size as int,
            ));
        }
        Some((start_frame, actual_size))
    }

    /// Allocate `count` frames with no flags and no partial-allocation
    /// fallback: the plain entry point of the frame-allocator interface,
    /// used by the page-table hierarchy for table pages.
    pub fn allocate_frames(&mut self, count: usize) -> (r: Option<Frame>)
        requires
            old(self).wf(),
        ensures
            final(self).wf(),
            final(self).spec_areas() == old(self).spec_areas(),
            final(self).spec_kernel_start() == old(self).spec_kernel_start(),
            final(self).spec_kernel_end() == old(self).spec_kernel_end(),
            final(self).cursor() >= old(self).cursor(),
            r matches Some(f) ==> {
                &&& f.number >= old(self).cursor()
                &&& final(self).cursor() == f.number + count
                &&& count >= 1
                &&& !run_hits_kernel(
                    f.number as int,
                    count as int,
                    old(self).spec_kernel_start(),
                    old(self).spec_kernel_end(),
                )
                &&& within_some_area(old(self).spec_areas(), f.number as int, count as int)
            },
            r is None && count > 0 ==> final(self).spec_current_area() is None,
            // Success is owed whenever the current area offers the run
            // clear of the kernel image.
            old(self).spec_current_area() matches Some(a) ==> ((count > 0 && area_avail(
                a,
                old(self).cursor(),
            ) >= count && !run_hits_kernel(
                old(self).cursor(),
                count as int,
                old(self).spec_kernel_start(),
                old(self).spec_kernel_end(),
            )) ==> r == Some(Frame { number: old(self).cursor() as usize })
                && final(self).cursor() == old(self).cursor() + count),
    {
        proof {
            assert(!partial_requested(0usize) && !space32_requested(0usize)) by (bit_vector);
        }
        match self.allocate_frames3(count, 0, None, count) {
            Some((frame, _granted)) => Some(frame),
            None => None,
        }
    }

    /// The full frame-allocator entry point: flags, an optional
    /// partial-allocation strategy, and the minimum a partial allocation
    /// may shrink to.
    pub fn allocate_frames_complex(
        &mut self,
        count: usize,
        flags: usize,
        strategy: Option<PartialAllocStrategy>,
        min: usize,
    ) -> (r: Option<(Frame, usize)>)
        requires
            old(self).wf(),
            partial_requested(flags) ==> 1 <= min <= count,
        ensures
            final(self).wf(),
            final(self).spec_areas() == old(self).spec_areas(),
            final(self).spec_kernel_start() == old(self).spec_kernel_start(),
            final(self).spec_kernel_end() == old(self).spec_kernel_end(),
            final(self).cursor() >= old(self).cursor(),
            r matches Some((f, actual)) ==> {
                &&& 1 <= actual <= count
                &&& (partial_requested(flags) ==> min <= actual)
                &&& (!partial_requested(flags) ==> actual == count)
                &&& f.number >= old(self).cursor()
                &&& final(self).cursor() == f.number + actual
                &&& !run_hits_kernel(
                    f.number as int,
                    actual as int,
                    old(self).spec_kernel_start(),
                    old(self).spec_kernel_end(),
                )
                &&& within_some_area(old(self).spec_areas(), f.number as int, actual as int)
                &&& (space32_requested(flags) ==> !run_crosses_4g(f.number as int, actual as int))
            },
            r is None && !space32_requested(flags) && count > 0 ==> final(self).spec_current_area() is None,
            // Success is owed whenever the current area can serve the
            // request below the cap and clear of the kernel image.
            old(self).spec_current_area() matches Some(a) ==> ((count > 0 && area_serves(
                a,
                old(self).cursor(),
                count as int,
                flags,
                min as int,
            )) ==> {
                let len = granted_len(a, old(self).cursor(), count as int, flags);
                &&& (space32_requested(flags) && run_crosses_4g(old(self).cursor(), len)) ==> (
                r is None && *final(self) == *old(self))
                &&& (!(space32_requested(flags) && run_crosses_4g(old(self).cursor(), len))
                    && !run_hits_kernel(
                    old(self).cursor(),
                    len,
                    old(self).spec_kernel_start(),
                    old(self).spec_kernel_end(),
                )) ==> {
                    &&& r matches Some((f, actual)) && f.number == old(self).cursor()
                        && actual == len
                    &&& final(self).cursor() == old(self).cursor() + len
                }
            }),
    {
        self.allocate_frames3(count, flags, strategy, min)
    }

    /// Release `count` frames starting at `frame`. The bootstrap allocator
    /// deliberately never reclaims: this is a documented no-op, and no
    /// double-free or ownership verification is performed.
    pub fn deallocate_frames(&mut self, frame: Frame, count: usize)
        ensures
            *final(self) == *old(self),
    {
        let _ = frame;
        let _ = count;
    }

    /// The allocator draws no distinction between core and non-core frames;
    /// accepted for interface compatibility and ignored.
    pub fn set_noncore(&mut self, noncore: bool)
        ensures
            *final(self) == *old(self),
    {
        let _ = noncore;
    }

    /// How many frames the introspection counters report as free.
    pub closed spec fn spec_free_frames(&self) -> int {
        free_frames_upto(
            self.areas@,
            self.areas@.len() as int,
            self.cursor(),
            self.spec_kernel_start(),
            self.spec_kernel_end(),
        )
    }

    /// How many frames the introspection counters report as used.
    pub closed spec fn spec_used_frames(&self) -> int {
        used_frames_upto(
            self.areas@,
            self.areas@.len() as int,
            self.cursor(),
            self.spec_kernel_start(),
            self.spec_kernel_end(),
        )
    }

    /// Count the frames of every area that are outside the kernel image and
    /// not yet behind the cursor.
    pub fn free_frames(&self) -> (count: usize)
        requires
            self.wf(),
        ensures
            count == self.spec_free_frames(),
    {
        let ghost cursor = self.cursor();
        let ghost ks = self.spec_kernel_start();
        let ghost ke = self.spec_kernel_end();
        let mut count: usize = 0;
        let mut i: usize = 0;
        while i < self.areas.len()
            invariant
                self.wf(),
                0 <= i <= self.areas@.len(),
                cursor == self.cursor(),
                ks == self.spec_kernel_start(),
                ke == self.spec_kernel_end(),
                count == free_frames_upto(self.areas@, i as int, cursor, ks, ke),
                count <= total_frames_upto(self.areas@, i as int),
            decreases self.areas@.len() - i,
        {
            let area = self.areas[i];
            let start_frame = area.base_addr / PAGE_SIZE;
            let end_frame = (area.base_addr + area.length - 1) / PAGE_SIZE;
            proof {
                lemma_area_frames_nonneg(area);
                lemma_total_frames_upto_bounds(self.areas@, i as int);
                lemma_total_frames_upto_bounds(self.areas@, i + 1);
            }
            let mut f = start_frame;
            while f <= end_frame
                invariant
                    self.wf(),
                    0 <= i < self.areas@.len(),
                    self.areas@[i as int] == area,
                    cursor == self.cursor(),
                    ks == self.spec_kernel_start(),
                    ke == self.spec_kernel_end(),
                    start_frame == area_start_frame(area),
                    end_frame == area_last_frame(area),
                    start_frame <= f <= end_frame + 1,
                    count == free_frames_upto(self.areas@, i as int, cursor, ks, ke)
                        + free_in_range(start_frame as int, f - 1, cursor, ks, ke),
                    count <= total_frames_upto(self.areas@, i as int) + (f - start_frame),
                    total_frames_upto(self.areas@, i as int) + area_frames(area)
                        <= total_frames(self.areas@) <= usize::MAX,
                decreases end_frame + 1 - f,
            {
                if f >= self.kernel_start.number && f <= self.kernel_end.number {
                    // inside the kernel image
                } else if f >= self.next_free_frame.number {
                    count += 1;
                }
                f += 1;
            }
            i += 1;
        }
        count
    }

    /// Count the frames of every area that belong to the kernel image or
    /// have already been passed by the cursor.
    pub fn used_frames(&self) -> (count: usize)
        requires
            self.wf(),
        ensures
            count == self.spec_used_frames(),
    {
        let ghost cursor = self.cursor();
        let ghost ks = self.spec_kernel_start();
        let ghost ke = self.spec_kernel_end();
        let mut count: usize = 0;
        let mut i: usize = 0;
        while i < self.areas.len()
            invariant
                self.wf(),
                0 <= i <= self.areas@.len(),
                cursor == self.cursor(),
                ks == self.spec_kernel_start(),
                ke == self.spec_kernel_end(),
                count == used_frames_upto(self.areas@, i as int, cursor, ks, ke),
                count <= total_frames_upto(self.areas@, i as int),
            decreases self.areas@.len() - i,
        {
            let area = self.areas[i];
            let start_frame = area.base_addr / PAGE_SIZE;
            let end_frame = (area.base_addr + area.length - 1) / PAGE_SIZE;
            proof {
                lemma_area_frames_nonneg(area);
                lemma_total_frames_upto_bounds(self.areas@, i as int);
                lemma_total_frames_upto_bounds(self.areas@, i + 1);
            }
            let mut f = start_frame;
            while f <= end_frame
                invariant
                    self.wf(),
                    0 <= i < self.areas@.len(),
                    self.areas@[i as int] == area,
                    cursor == self.cursor(),
                    ks == self.spec_kernel_start(),
                    ke == self.spec_kernel_end(),
                    start_frame == area_start_frame(area),
                    end_frame == area_last_frame(area),
                    start_frame <= f <= end_frame + 1,
                    count == used_frames_upto(self.areas@, i as int, cursor, ks, ke)
                        + used_in_range(start_frame as int, f - 1, cursor, ks, ke),
                    count <= total_frames_upto(self.areas@, i as int) + (f - start_frame),
                    total_frames_upto(self.areas@, i as int) + area_frames(area)
                        <= total_frames(self.areas@) <= usize::MAX,
                decreases end_frame + 1 - f,
            {
                if f >= self.kernel_start.number && f <= self.kernel_end.number {
                    count += 1;
                } else if f >= self.next_free_frame.number {
                    // still free
                } else {
                    count += 1;
                }
                f += 1;
            }
            i += 1;
        }
        count
    }
}

/// Every frame of every reported area is counted exactly once by the two
/// introspection counters — as used (inside the kernel image or behind the
/// cursor) or as free — so what `free_frames` and `used_frames` report
/// always sums to the total frame count of the areas.
pub proof fn lemma_free_used_partition(a: &BumpAllocator)
    requires
        a.wf(),
    ensures
        a.spec_free_frames() + a.spec_used_frames() == total_frames(a.spec_areas()),
{
    lemma_counts_partition_upto(
        a.areas@,
        a.areas@.len() as int,
        a.cursor(),
        a.spec_kernel_start(),
        a.spec_kernel_end(),
    );
}

/// Every frame of a run granted from a well-formed allocator has a start
/// address that fits the address space and the 52-bit physical-address
/// field of a page-table entry.
pub proof fn lemma_granted_run_bounds(a: &BumpAllocator, start: int, len: int)
    requires
        a.wf(),
        within_some_area(a.spec_areas(), start, len),
        len >= 1,
    ensures
        0 <= start,
        (start + len - 1) * (PAGE_SIZE as int) <= usize::MAX,
        (start + len - 1) * (PAGE_SIZE as int) < 0x10_0000_0000_0000,
{
    let areas = a.spec_areas();
    let i = choose|i: int|
        0 <= i < areas.len() && area_start_frame(#[trigger] areas[i]) <= start && start + len - 1
            <= area_last_frame(areas[i]);
    assert(area_wf(areas[i]));
    let end_addr = areas[i].base_addr + areas[i].length - 1;
    vstd::arithmetic::div_mod::lemma_fundamental_div_mod(end_addr, PAGE_SIZE as int);
    assert(area_last_frame(areas[i]) * PAGE_SIZE as int <= end_addr);
    vstd::arithmetic::div_mod::lemma_div_is_ordered(0, areas[i].base_addr as int, PAGE_SIZE as int);
}

/// Frame runs handed out by successive allocations never overlap: each run
/// begins at or after the cursor the previous success left behind, and the
/// cursor never rewinds (deallocation is a no-op). With the allocator's
/// guarantee that no run overlaps the kernel image, every granted run is
/// disjoint both from the kernel and from every earlier, never-freed grant.
pub proof fn lemma_allocations_never_overlap(
    c0: int,
    f1: int,
    n1: int,
    c1: int,
    c2: int,
    f2: int,
    n2: int,
)
    requires
        // what `allocate_frames3` ensures of the first success
        f1 >= c0,
        n1 >= 1,
        c1 == f1 + n1,
        // between the calls the cursor can only move forward
        c2 >= c1,
        // what `allocate_frames3` ensures of the second success
        f2 >= c2,
        n2 >= 1,
    ensures
        f1 + n1 <= f2,
{
}

} // verus!
