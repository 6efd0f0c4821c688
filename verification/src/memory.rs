//! Guest physical addresses, the guest's initial memory layout, and the page
//! arithmetic that memory slots need.

use vstd::prelude::*;

verus! {

/// An address as the guest sees it.
#[derive(Clone, Copy, Debug, PartialEq, Eq, PartialOrd, Ord, Hash, Structural)]
pub struct GuestAddress(pub u64);

impl GuestAddress {
    /// The address as a number.
    pub fn offset(&self) -> (n: u64)
        ensures
            n == self.0,
    {
        self.0
    }

    /// The address `other` bytes further on, unless that lies beyond the
    /// address space.
    pub fn checked_add(&self, other: u64) -> (r: Option<GuestAddress>)
        ensures
            r == (if self.0 + other <= u64::MAX {
                Some(GuestAddress((self.0 + other) as u64))
            } else {
                None::<GuestAddress>
            }),
    {
        if other <= u64::MAX - self.0 {
            Some(GuestAddress(self.0 + other))
        } else {
            None
        }
    }

    /// The distance from `base` up to this address.
    pub fn offset_from(&self, base: GuestAddress) -> (n: u64)
        requires
            base.0 <= self.0,
        ensures
            n == self.0 - base.0,
    {
        self.0 - base.0
    }
}

/// `a / b`, rounded up.
pub open spec fn ceil_div(a: int, b: int) -> int {
    if a % b == 0 {
        a / b
    } else {
        a / b + 1
    }
}

/// The least multiple of `page_size` that is not below `size`.
pub open spec fn page_round_up(size: int, page_size: int) -> int {
    ceil_div(size, page_size) * page_size
}

/// Number of bytes of a dirty-page bitmap for a region of `size` bytes: one
/// bit for each page that the region touches, in whole bytes.
pub open spec fn dirty_log_bitmap_bytes(size: int, page_size: int) -> int {
    ceil_div(ceil_div(size, page_size), 8)
}

/// Rounding up by adding the divisor less one and dividing gives the same
/// as `ceil_div`.
pub proof fn lemma_ceil_div_by_addition(a: int, b: int)
    requires
        0 <= a,
        0 < b,
    ensures
        ceil_div(a, b) == (a + b - 1) / b,
{
    let q = a / b;
    let r = a % b;
    assert(a == b * q + r && 0 <= r < b) by {
        vstd::arithmetic::div_mod::lemma_fundamental_div_mod(a, b);
        vstd::arithmetic::div_mod::lemma_mod_bound(a, b);
    }
    if r == 0 {
        assert(a + b - 1 == b * q + (b - 1));
        vstd::arithmetic::div_mod::lemma_fundamental_div_mod_converse(a + b - 1, b, q, b - 1);
    } else {
        assert(a + b - 1 == b * (q + 1) + (r - 1)) by (nonlinear_arith)
            requires
                a == b * q + r,
        ;
        vstd::arithmetic::div_mod::lemma_fundamental_div_mod_converse(
            a + b - 1,
            b,
            q + 1,
            r - 1,
        );
    }
}

/// A size rounded up to whole pages is not below the size, and less than a
/// page above it.
pub proof fn lemma_page_round_up_bounds(size: int, page_size: int)
    requires
        0 <= size,
        0 < page_size,
    ensures
        size <= page_round_up(size, page_size) < size + page_size,
        page_round_up(size, page_size) % page_size == 0,
{
    vstd::arithmetic::div_mod::lemma_fundamental_div_mod(size, page_size);
    vstd::arithmetic::div_mod::lemma_mod_bound(size, page_size);
    let q = size / page_size;
    assert((q + 1) * page_size == q * page_size + page_size) by (nonlinear_arith);
    assert(q * page_size == page_size * q) by (nonlinear_arith);
    vstd::arithmetic::div_mod::lemma_mod_multiples_basic(q, page_size);
    vstd::arithmetic::div_mod::lemma_mod_multiples_basic(q + 1, page_size);
}

/// Size in bytes of the dirty-page bitmap for a memory region of `size`
/// bytes, with pages of `page_size` bytes.
pub fn dirty_log_bitmap_size(size: usize, page_size: usize) -> (bytes: usize)
    requires
        page_size > 0,
    ensures
        bytes == dirty_log_bitmap_bytes(size as int, page_size as int),
        bytes == ((size + page_size - 1) / (page_size as int) + 7) / 8,
{
    let whole: usize = size / page_size;
    let pages: usize = if size % page_size == 0 {
        whole
    } else {
        assert(whole < usize::MAX) by (nonlinear_arith)
            requires
                whole == size / page_size,
                size % page_size != 0,
                0 < page_size,
                size <= usize::MAX,
        {
            if page_size == 1 {
                assert(size % 1 == 0);
            }
            assert(size / page_size <= size);
        }
        whole + 1
    };
    proof {
        lemma_ceil_div_by_addition(size as int, page_size as int);
        lemma_ceil_div_by_addition(pages as int, 8);
    }
    if pages % 8 == 0 {
        pages / 8
    } else {
        pages / 8 + 1
    }
}

/// The size of a memory region rounded up to whole pages, unless the result
/// overflows.
pub fn round_up_to_page(size: u64, page_size: u64) -> (rounded: Option<u64>)
    requires
        page_size > 0,
    ensures
        rounded == (if page_round_up(size as int, page_size as int) <= u64::MAX {
            Some(page_round_up(size as int, page_size as int) as u64)
        } else {
            None::<u64>
        }),
{
    let rem: u64 = size % page_size;
    proof {
        vstd::arithmetic::div_mod::lemma_fundamental_div_mod(size as int, page_size as int);
        assert((size / page_size + 1) * page_size == (size / page_size) * page_size + page_size)
            by (nonlinear_arith);
        assert((size / page_size) * page_size == page_size * (size / page_size))
            by (nonlinear_arith);
    }
    if rem == 0 {
        Some(size)
    } else {
        let pad: u64 = page_size - rem;
        if size <= u64::MAX - pad {
            Some(size + pad)
        } else {
            None
        }
    }
}

} // verus!

verus! {

/// One region of the memory that a guest starts with.
#[derive(Clone, Copy, Debug, PartialEq, Eq, Structural)]
pub struct GuestMemoryRegion {
    /// Where the region starts in the guest's address space.
    pub guest_base: GuestAddress,
    /// Its length in bytes.
    pub size: u64,
    /// Where the host has it mapped.
    pub host_addr: u64,
}

impl GuestMemoryRegion {
    /// The first guest address behind the region.
    pub open spec fn end(self) -> int {
        self.guest_base.0 + self.size
    }
}

/// Whether the guest address ranges `[start1, end1)` and `[start2, end2)`
/// overlap, as the memory layout judges it.
pub open spec fn ranges_overlap(start1: int, end1: int, start2: int, end2: int) -> bool {
    start1 < end2 && start2 < end1
}

/// Whether the regions lie in the address space in ascending order without
/// touching the same address twice.
pub open spec fn layout_valid(regions: Seq<GuestMemoryRegion>) -> bool {
    &&& forall|i: int| 0 <= i < regions.len() ==> (#[trigger] regions[i]).end() <= u64::MAX
    &&& forall|i: int, j: int|
        0 <= i < j < regions.len() ==> (#[trigger] regions[i]).end() <= (
        #[trigger] regions[j]).guest_base.0
}

/// Whether the range `[start, end)` overlaps one of the regions.
pub open spec fn layout_overlaps(regions: Seq<GuestMemoryRegion>, start: int, end: int) -> bool {
    exists|i: int|
        0 <= i < regions.len() && ranges_overlap(
            (#[trigger] regions[i]).guest_base.0 as int,
            regions[i].end(),
            start,
            end,
        )
}

/// The first address behind the last region; zero where there is none.
pub open spec fn layout_end(regions: Seq<GuestMemoryRegion>) -> int {
    if regions.len() == 0 {
        0
    } else {
        regions.last().end()
    }
}

/// Why a memory layout was refused.
#[derive(Clone, Copy, Debug, PartialEq, Eq, Structural)]
pub enum GuestMemoryError {
    /// A region reaches beyond the address space, or into or behind the
    /// region that follows it.
    MemoryRegionOverlap,
}

/// The memory that a guest starts with: regions in ascending order that do
/// not overlap.
#[derive(Debug)]
pub struct GuestMemory {
    regions: Vec<GuestMemoryRegion>,
}

impl View for GuestMemory {
    type V = Seq<GuestMemoryRegion>;

    closed spec fn view(&self) -> Seq<GuestMemoryRegion> {
        self.regions@
    }
}

impl GuestMemory {
    /// What holds of every guest memory: its regions form a valid layout.
    #[verifier::type_invariant]
    pub open spec fn well_formed(&self) -> bool {
        layout_valid(self@)
    }

    /// Makes a guest memory of `regions`, if they form a valid layout.
    pub fn new(regions: Vec<GuestMemoryRegion>) -> (r: core::result::Result<
        GuestMemory,
        GuestMemoryError,
    >)
        ensures
            match r {
                Ok(memory) => layout_valid(regions@) && memory@ == regions@,
                Err(e) => !layout_valid(regions@) && e == GuestMemoryError::MemoryRegionOverlap,
            },
    {
        let mut i: usize = 0;
        while i < regions.len()
            invariant
                i <= regions.len(),
                forall|k: int| 0 <= k < i ==> (#[trigger] regions@[k]).end() <= u64::MAX,
                forall|k: int|
                    0 <= k < i && k + 1 < regions.len() ==> (#[trigger] regions@[k]).end()
                        <= regions@[k + 1].guest_base.0,
            decreases regions.len() - i,
        {
            let region: GuestMemoryRegion = regions[i];
            if region.size > u64::MAX - region.guest_base.0 {
                return Err(GuestMemoryError::MemoryRegionOverlap);
            }
            if i + 1 < regions.len() {
                let next: GuestMemoryRegion = regions[i + 1];
                if region.guest_base.0 + region.size > next.guest_base.0 {
                    assert(regions@[i as int].end() > regions@[i + 1].guest_base.0);
                    return Err(GuestMemoryError::MemoryRegionOverlap);
                }
            }
            i += 1;
        }
        proof {
            lemma_adjacent_order_is_total(regions@);
        }
        Ok(GuestMemory { regions })
    }

    /// Number of regions.
    pub fn num_regions(&self) -> (n: u64)
        ensures
            n == self@.len(),
    {
        self.regions.len() as u64
    }

    /// The region at `index`.
    pub fn region(&self, index: usize) -> (region: GuestMemoryRegion)
        requires
            index < self@.len(),
        ensures
            region == self@[index as int],
    {
        self.regions[index]
    }

    /// The first address behind the last region.
    pub fn end_addr(&self) -> (end: GuestAddress)
        ensures
            end.0 == layout_end(self@),
    {
        proof {
            use_type_invariant(self);
        }
        let n: usize = self.regions.len();
        if n == 0 {
            GuestAddress(0)
        } else {
            let last: GuestMemoryRegion = self.regions[n - 1];
            GuestAddress(last.guest_base.0 + last.size)
        }
    }

    /// Tells whether the range from `start` up to `end` overlaps a region.
    pub fn range_overlap(&self, start: GuestAddress, end: GuestAddress) -> (overlap: bool)
        ensures
            overlap == layout_overlaps(self@, start.0 as int, end.0 as int),
    {
        proof {
            use_type_invariant(self);
        }
        let mut i: usize = 0;
        while i < self.regions.len()
            invariant
                i <= self.regions.len(),
                layout_valid(self.regions@),
                forall|k: int|
                    0 <= k < i ==> !ranges_overlap(
                        (#[trigger] self.regions@[k]).guest_base.0 as int,
                        self.regions@[k].end(),
                        start.0 as int,
                        end.0 as int,
                    ),
            decreases self.regions.len() - i,
        {
            let region: GuestMemoryRegion = self.regions[i];
            if region.guest_base.0 < end.0 && start.0 < region.guest_base.0 + region.size {
                return true;
            }
            i += 1;
        }
        false
    }
}

/// Regions of which each ends before the next starts are in order as a
/// whole.
proof fn lemma_adjacent_order_is_total(regions: Seq<GuestMemoryRegion>)
    requires
        forall|k: int| 0 <= k < regions.len() ==> (#[trigger] regions[k]).end() <= u64::MAX,
        forall|k: int|
            0 <= k && k + 1 < regions.len() ==> (#[trigger] regions[k]).end() <= regions[k
                + 1].guest_base.0,
    ensures
        layout_valid(regions),
{
    assert forall|i: int, j: int| 0 <= i < j < regions.len() implies (#[trigger] regions[i]).end()
        <= (#[trigger] regions[j]).guest_base.0 by {
        lemma_ordered_up_to(regions, i, j);
    }
}

proof fn lemma_ordered_up_to(regions: Seq<GuestMemoryRegion>, i: int, j: int)
    requires
        0 <= i < j < regions.len(),
        forall|k: int|
            0 <= k && k + 1 < regions.len() ==> (#[trigger] regions[k]).end() <= regions[k
                + 1].guest_base.0,
    ensures
        regions[i].end() <= regions[j].guest_base.0,
    decreases j - i,
{
    if j == i + 1 {
        assert(regions[i].end() <= regions[i + 1].guest_base.0);
    } else {
        lemma_ordered_up_to(regions, i, j - 1);
        assert(regions[j - 1].end() <= regions[j - 1 + 1].guest_base.0);
    }
}

} // verus!

verus! {

/// Whether the address lies in one of the regions.
pub open spec fn layout_contains(regions: Seq<GuestMemoryRegion>, addr: int) -> bool {
    exists|i: int|
        0 <= i < regions.len() && (#[trigger] regions[i]).guest_base.0 <= addr < regions[i].end()
}

impl GuestMemory {
    /// Tells whether `addr` lies in the guest's memory.
    pub fn address_in_range(&self, addr: GuestAddress) -> (inside: bool)
        ensures
            inside == layout_contains(self@, addr.0 as int),
    {
        proof {
            use_type_invariant(self);
        }
        let mut i: usize = 0;
        while i < self.regions.len()
            invariant
                i <= self.regions.len(),
                layout_valid(self.regions@),
                forall|k: int|
                    0 <= k < i ==> !((#[trigger] self.regions@[k]).guest_base.0 <= addr.0
                        < self.regions@[k].end()),
            decreases self.regions.len() - i,
        {
            let region: GuestMemoryRegion = self.regions[i];
            if region.guest_base.0 <= addr.0 && addr.0 < region.guest_base.0 + region.size {
                return true;
            }
            i += 1;
        }
        false
    }

    /// The address `offset` bytes behind `addr`, if it lies in the guest's
    /// memory.
    pub fn checked_offset(&self, addr: GuestAddress, offset: u64) -> (r: Option<GuestAddress>)
        ensures
            r == (if layout_contains(self@, addr.0 + offset) {
                Some(GuestAddress((addr.0 + offset) as u64))
            } else {
                None::<GuestAddress>
            }),
    {
        proof {
            use_type_invariant(self);
        }
        match addr.checked_add(offset) {
            Some(a) => {
                if self.address_in_range(a) {
                    Some(a)
                } else {
                    None
                }
            },
            None => None,
        }
    }
}

} // verus!
