//! The memory slots of a virtual machine: which host mappings back which
//! guest addresses, under which slot numbers, and which numbers are free.

use std::collections::BTreeMap;
use vstd::prelude::*;
use crate::abi;
use crate::abi::KvmUserspaceMemoryRegion;
use crate::abi::{KvmCreateDevice, KvmDirtyLog};
use crate::errno::{
    efault, einval, eio, enoent, enospc, enxio, eoverflow, Error, Result, EFAULT, EINVAL, EIO,
    ENOENT, ENOSPC, ENXIO, EOVERFLOW,
};
use crate::memory::{
    dirty_log_bitmap_bytes, dirty_log_bitmap_size, layout_overlaps, layout_valid, page_round_up, ranges_overlap, round_up_to_page, GuestAddress,
    GuestMemory, GuestMemoryRegion,
};
use crate::slots::{is_least, MemSlot, MemSlotGaps};

verus! {

/// A mapping of host memory that can back guest memory: where it lies in
/// the host's address space and how long it is.
#[derive(Clone, Copy, Debug, PartialEq, Eq, Structural)]
pub struct MappedRegion {
    pub addr: u64,
    pub size: usize,
}

impl MappedRegion {
    /// The host address of the mapping.
    pub fn as_ptr(&self) -> (addr: u64)
        ensures
            addr == self.addr,
    {
        self.addr
    }

    /// The length of the mapping in bytes.
    pub fn size(&self) -> (size: usize)
        ensures
            size == self.size,
    {
        self.size
    }
}

/// What a memory slot holds: the mapping and the guest range it backs.
#[derive(Clone, Copy, Debug, PartialEq, Eq, Structural)]
pub struct MemorySlotEntry {
    /// Where the range starts in the guest's address space.
    pub guest_addr: GuestAddress,
    /// The length of the range: the mapping's length in whole pages.
    pub size: u64,
    /// The mapping.
    pub mem: MappedRegion,
}

impl MemorySlotEntry {
    /// The first guest address behind the range.
    pub open spec fn end(self) -> int {
        self.guest_addr.0 + self.size
    }
}

/// Whether the range `[start, end)` overlaps the range of a slot in use.
pub open spec fn slots_overlap(regions: Map<MemSlot, MemorySlotEntry>, start: int, end: int) -> bool {
    exists|s: MemSlot|
        #[trigger] regions.contains_key(s) && ranges_overlap(
            regions[s].guest_addr.0 as int,
            regions[s].end(),
            start,
            end,
        )
}

/// The flags of a memory slot.
pub open spec fn memory_flags(read_only: bool, log_dirty_pages: bool) -> u32 {
    if read_only && log_dirty_pages {
        3
    } else if read_only {
        abi::KVM_MEM_READONLY
    } else if log_dirty_pages {
        abi::KVM_MEM_LOG_DIRTY_PAGES
    } else {
        0
    }
}

/// The record that creates, changes or releases a memory slot.
pub open spec fn user_memory_region(
    slot: MemSlot,
    read_only: bool,
    log_dirty_pages: bool,
    guest_addr: u64,
    memory_size: u64,
    userspace_addr: u64,
) -> KvmUserspaceMemoryRegion {
    KvmUserspaceMemoryRegion {
        slot,
        flags: memory_flags(read_only, log_dirty_pages),
        guest_phys_addr: guest_addr,
        memory_size,
        userspace_addr,
    }
}

/// The request that registers the initial region at `index` with the
/// kernel: under the slot of that number, writable and without a dirty log.
pub open spec fn initial_request(region: GuestMemoryRegion, index: int) -> KvmUserspaceMemoryRegion {
    user_memory_region(
        index as MemSlot,
        false,
        false,
        region.guest_base.0,
        region.size,
        region.host_addr,
    )
}

/// The request that releases a memory slot: the slot with no memory.
pub open spec fn release_request(slot: MemSlot) -> KvmUserspaceMemoryRegion {
    user_memory_region(slot, false, false, 0, 0, 0)
}

/// Builds the record that creates, changes or releases a memory slot: it
/// maps `memory_size` bytes of host memory at `userspace_addr` to the guest
/// address `guest_addr`, read-only and with a log of dirty pages as asked.
/// A size of zero releases the slot.
pub fn set_user_memory_region(
    slot: MemSlot,
    read_only: bool,
    log_dirty_pages: bool,
    guest_addr: u64,
    memory_size: u64,
    userspace_addr: u64,
) -> (region: KvmUserspaceMemoryRegion)
    ensures
        region == user_memory_region(
            slot,
            read_only,
            log_dirty_pages,
            guest_addr,
            memory_size,
            userspace_addr,
        ),
{
    let mut flags: u32 = if read_only {
        abi::KVM_MEM_READONLY
    } else {
        0
    };
    if log_dirty_pages {
        flags |= abi::KVM_MEM_LOG_DIRTY_PAGES;
    }
    proof {
        assert(2u32 | 1u32 == 3u32) by (bit_vector);
        assert(0u32 | 1u32 == 1u32) by (bit_vector);
    }
    KvmUserspaceMemoryRegion {
        slot,
        flags,
        guest_phys_addr: guest_addr,
        memory_size,
        userspace_addr,
    }
}

/// The memory of a virtual machine as the host accounts for it.
pub struct VmMemory {
    /// The regions that the machine was created with. They hold the slots
    /// from zero up, in this order.
    pub initial: Seq<GuestMemoryRegion>,
    /// The regions added since, by slot.
    pub regions: Map<MemSlot, MemorySlotEntry>,
    /// The slot numbers that were given back and not handed out again.
    pub free_slots: Set<MemSlot>,
    /// The size of a page of memory.
    pub page_size: usize,
}

impl VmMemory {
    /// Number of slot numbers ever handed out, the initial ones included.
    pub open spec fn slot_count(self) -> int {
        (self.initial.len() + self.regions.len() + self.free_slots.len()) as int
    }

    /// Whether an entry is one that this memory admits: its range lies in
    /// the address space, spans the mapping in whole pages, and keeps clear
    /// of the initial regions.
    pub open spec fn entry_valid(self, entry: MemorySlotEntry) -> bool {
        &&& entry.end() <= u64::MAX
        &&& entry.size == page_round_up(entry.mem.size as int, self.page_size as int)
        &&& !layout_overlaps(self.initial, entry.guest_addr.0 as int, entry.end())
    }

    /// What holds of the memory of every virtual machine: the slot numbers
    /// handed out are exactly those from zero up to their count, none of
    /// them is both in use and free, and no two ranges overlap.
    pub open spec fn wf(self) -> bool {
        &&& self.page_size > 0
        &&& layout_valid(self.initial)
        &&& self.regions.dom().finite()
        &&& self.free_slots.finite()
        &&& self.slot_count() <= u32::MAX + 1
        &&& forall|s: MemSlot|
            #![trigger self.regions.contains_key(s)]
            #![trigger self.free_slots.contains(s)]
            (self.regions.contains_key(s) || self.free_slots.contains(s)) <==> self.initial.len()
                <= s < self.slot_count()
        &&& forall|s: MemSlot|
            #![trigger self.regions.contains_key(s)]
            #![trigger self.free_slots.contains(s)]
            !(self.regions.contains_key(s) && self.free_slots.contains(s))
        &&& forall|s: MemSlot| #[trigger]
            self.regions.contains_key(s) ==> self.entry_valid(self.regions[s])
        &&& forall|s: MemSlot, t: MemSlot|
            #[trigger] self.regions.contains_key(s) && #[trigger] self.regions.contains_key(t)
                && s != t ==> !ranges_overlap(
                self.regions[s].guest_addr.0 as int,
                self.regions[s].end(),
                self.regions[t].guest_addr.0 as int,
                self.regions[t].end(),
            )
    }

    /// Whether no slot number is free.
    pub open spec fn no_free_slot(self) -> bool {
        forall|s: MemSlot| !self.free_slots.contains(s)
    }

    /// The slot number that the next region gets: the least free one, or
    /// else the count of the regions in use and the initial ones.
    pub open spec fn next_slot(self) -> int {
        if self.no_free_slot() {
            (self.initial.len() + self.regions.len()) as int
        } else {
            (choose|m: MemSlot| is_least(self.free_slots, m)) as int
        }
    }

    /// The entry that a mapping gets when it is added at `guest_addr`.
    pub open spec fn new_entry(self, guest_addr: GuestAddress, mem: MappedRegion) -> MemorySlotEntry {
        MemorySlotEntry {
            guest_addr,
            size: page_round_up(mem.size as int, self.page_size as int) as u64,
            mem,
        }
    }

    /// What is wrong with the guest range of a mapping to be added at
    /// `guest_addr`, if anything is: in whole pages it reaches beyond the
    /// address space (`EOVERFLOW`), or it overlaps a range that is there, be
    /// it an initial one or one added since (`ENOSPC`).
    pub open spec fn range_error(self, guest_addr: GuestAddress, mem: MappedRegion) -> Option<
        Error,
    > {
        let end = guest_addr.0 + page_round_up(mem.size as int, self.page_size as int);
        if end > u64::MAX {
            Some(Error { errno: EOVERFLOW })
        } else if layout_overlaps(self.initial, guest_addr.0 as int, end) || slots_overlap(
            self.regions,
            guest_addr.0 as int,
            end,
        ) {
            Some(Error { errno: ENOSPC })
        } else {
            None
        }
    }

    /// Why a mapping cannot be added at `guest_addr`, if it cannot: its
    /// range is refused, or no slot number is left (`ENOSPC`).
    pub open spec fn add_error(self, guest_addr: GuestAddress, mem: MappedRegion) -> Option<Error> {
        if self.range_error(guest_addr, mem) is Some {
            self.range_error(guest_addr, mem)
        } else if self.next_slot() > u32::MAX {
            Some(Error { errno: ENOSPC })
        } else {
            None
        }
    }

    /// The request that registers a mapping with the kernel: under the next
    /// slot number, for the mapping's length in whole pages.
    pub open spec fn add_request(
        self,
        guest_addr: GuestAddress,
        mem: MappedRegion,
        read_only: bool,
        log_dirty_pages: bool,
    ) -> KvmUserspaceMemoryRegion {
        user_memory_region(
            self.next_slot() as MemSlot,
            read_only,
            log_dirty_pages,
            guest_addr.0,
            self.new_entry(guest_addr, mem).size,
            mem.addr,
        )
    }

    /// The memory after a mapping was added at `guest_addr`.
    pub open spec fn after_add(self, guest_addr: GuestAddress, mem: MappedRegion) -> VmMemory {
        let slot = self.next_slot() as MemSlot;
        VmMemory {
            regions: self.regions.insert(slot, self.new_entry(guest_addr, mem)),
            free_slots: self.free_slots.remove(slot),
            ..self
        }
    }

    /// The memory after the kernel refused a mapping: the slot number
    /// chosen for it is free.
    pub open spec fn after_refused_add(self) -> VmMemory {
        VmMemory { free_slots: self.free_slots.insert(self.next_slot() as MemSlot), ..self }
    }

    /// The memory after the region in `slot` was removed.
    pub open spec fn after_remove(self, slot: MemSlot) -> VmMemory {
        VmMemory {
            regions: self.regions.remove(slot),
            free_slots: self.free_slots.insert(slot),
            ..self
        }
    }
}

} // verus!

verus! {

/// A set of slot numbers that has a member has a least one.
pub proof fn lemma_least_exists(s: Set<MemSlot>, x: MemSlot)
    requires
        s.contains(x),
    ensures
        exists|m: MemSlot| is_least(s, m),
    decreases x,
{
    if exists|y: MemSlot| s.contains(y) && y < x {
        let y = choose|y: MemSlot| s.contains(y) && y < x;
        lemma_least_exists(s, y);
    } else {
        assert(is_least(s, x));
    }
}

/// The slot number that the next region gets is the least free one where
/// one is free, and in no case one in use or one of an initial region.
pub proof fn lemma_next_slot_is_fresh(v: VmMemory)
    requires
        v.wf(),
    ensures
        v.initial.len() <= v.next_slot() <= v.slot_count(),
        !v.no_free_slot() ==> v.next_slot() <= u32::MAX && is_least(
            v.free_slots,
            v.next_slot() as MemSlot,
        ),
        v.no_free_slot() ==> v.next_slot() == v.slot_count(),
        v.next_slot() <= u32::MAX ==> !v.regions.contains_key(v.next_slot() as MemSlot),
{
    if v.no_free_slot() {
        assert(v.free_slots =~= Set::<MemSlot>::empty());
        let n = v.next_slot();
        if n <= u32::MAX {
            let s = n as MemSlot;
            if v.regions.contains_key(s) {
                assert(s < v.slot_count());
            }
        }
    } else {
        let x = choose|x: MemSlot| v.free_slots.contains(x);
        lemma_least_exists(v.free_slots, x);
        let m = choose|m: MemSlot| is_least(v.free_slots, m);
        assert(v.free_slots.contains(m));
        assert(v.initial.len() <= m < v.slot_count());
    }
}

/// Adding a region keeps the memory well formed: slot numbers stay unique
/// and dense, and ranges stay apart.
pub proof fn lemma_add_preserves_wf(v: VmMemory, guest_addr: GuestAddress, mem: MappedRegion)
    requires
        v.wf(),
        v.add_error(guest_addr, mem) is None,
    ensures
        v.after_add(guest_addr, mem).wf(),
        !v.regions.contains_key(v.next_slot() as MemSlot),
        v.after_add(guest_addr, mem).regions.len() == v.regions.len() + 1,
{
    lemma_next_slot_is_fresh(v);
    let w = v.after_add(guest_addr, mem);
    let slot = v.next_slot() as MemSlot;
    let entry = v.new_entry(guest_addr, mem);
    assert(w.regions.dom() =~= v.regions.dom().insert(slot));
    if v.no_free_slot() {
        assert(v.free_slots =~= Set::<MemSlot>::empty());
        assert(w.free_slots =~= v.free_slots);
    } else {
        assert(v.free_slots.contains(slot));
    }
    assert(w.slot_count() == v.slot_count() + (if v.no_free_slot() {
        1int
    } else {
        0int
    }));
    assert forall|s: MemSlot|
        #![trigger w.regions.contains_key(s)]
        #![trigger w.free_slots.contains(s)]
        (w.regions.contains_key(s) || w.free_slots.contains(s)) <==> w.initial.len() <= s
            < w.slot_count() by {
        if s != slot {
            assert(w.regions.contains_key(s) == v.regions.contains_key(s));
            assert(w.free_slots.contains(s) == v.free_slots.contains(s));
        }
    }
    assert forall|s: MemSlot| #[trigger] w.regions.contains_key(s) implies w.entry_valid(
        w.regions[s],
    ) by {
        if s != slot {
            assert(v.regions.contains_key(s));
        }
    }
    assert forall|s: MemSlot, t: MemSlot|
        #[trigger] w.regions.contains_key(s) && #[trigger] w.regions.contains_key(t) && s
            != t implies !ranges_overlap(
        w.regions[s].guest_addr.0 as int,
        w.regions[s].end(),
        w.regions[t].guest_addr.0 as int,
        w.regions[t].end(),
    ) by {
        if s == slot {
            assert(v.regions.contains_key(t));
        } else if t == slot {
            assert(v.regions.contains_key(s));
        } else {
            assert(v.regions.contains_key(s) && v.regions.contains_key(t));
        }
    }
}

/// A refused region keeps the memory well formed.
pub proof fn lemma_refused_add_preserves_wf(v: VmMemory)
    requires
        v.wf(),
        v.next_slot() <= u32::MAX,
    ensures
        v.after_refused_add().wf(),
        v.after_refused_add().next_slot() == v.next_slot(),
{
    lemma_next_slot_is_fresh(v);
    let w = v.after_refused_add();
    let slot = v.next_slot() as MemSlot;
    if v.no_free_slot() {
        assert(v.free_slots =~= Set::<MemSlot>::empty());
        assert(w.free_slots.contains(slot));
        assert(is_least(w.free_slots, slot));
    } else {
        assert(w.free_slots =~= v.free_slots);
    }
    assert forall|s: MemSlot|
        #![trigger w.regions.contains_key(s)]
        #![trigger w.free_slots.contains(s)]
        (w.regions.contains_key(s) || w.free_slots.contains(s)) <==> w.initial.len() <= s
            < w.slot_count() by {
        if s != slot {
            assert(w.free_slots.contains(s) == v.free_slots.contains(s));
        }
    }
    assert(!w.no_free_slot()) by {
        assert(w.free_slots.contains(slot));
    }
    let m = choose|m: MemSlot| is_least(w.free_slots, m);
    lemma_least_exists(w.free_slots, slot);
    assert(is_least(w.free_slots, m));
    assert(m == slot);
}

/// Removing a region keeps the memory well formed, and frees its slot
/// number.
pub proof fn lemma_remove_preserves_wf(v: VmMemory, slot: MemSlot)
    requires
        v.wf(),
        v.regions.contains_key(slot),
    ensures
        v.after_remove(slot).wf(),
        !v.after_remove(slot).regions.contains_key(slot),
        v.after_remove(slot).free_slots.contains(slot),
{
    let w = v.after_remove(slot);
    assert(w.regions.dom() =~= v.regions.dom().remove(slot));
    assert(!v.free_slots.contains(slot));
    assert forall|s: MemSlot|
        #![trigger w.regions.contains_key(s)]
        #![trigger w.free_slots.contains(s)]
        (w.regions.contains_key(s) || w.free_slots.contains(s)) <==> w.initial.len() <= s
            < w.slot_count() by {
        if s != slot {
            assert(w.regions.contains_key(s) == v.regions.contains_key(s));
            assert(w.free_slots.contains(s) == v.free_slots.contains(s));
        } else {
            assert(v.regions.contains_key(s));
        }
    }
    assert forall|s: MemSlot| #[trigger] w.regions.contains_key(s) implies w.entry_valid(
        w.regions[s],
    ) by {
        assert(v.regions.contains_key(s));
    }
    assert forall|s: MemSlot, t: MemSlot|
        #[trigger] w.regions.contains_key(s) && #[trigger] w.regions.contains_key(t) && s
            != t implies !ranges_overlap(
        w.regions[s].guest_addr.0 as int,
        w.regions[s].end(),
        w.regions[t].guest_addr.0 as int,
        w.regions[t].end(),
    ) by {
        assert(v.regions.contains_key(s) && v.regions.contains_key(t));
    }
}

/// A slot number that was freed is handed out again before any number that
/// was never in use: after a removal the next slot number is the one freed
/// or a lesser one.
pub proof fn lemma_freed_slot_is_reused_first(v: VmMemory, slot: MemSlot)
    requires
        v.wf(),
        v.regions.contains_key(slot),
    ensures
        v.after_remove(slot).next_slot() <= slot,
        v.after_remove(slot).free_slots.contains(v.after_remove(slot).next_slot() as MemSlot),
{
    let w = v.after_remove(slot);
    lemma_remove_preserves_wf(v, slot);
    assert(!w.no_free_slot()) by {
        assert(w.free_slots.contains(slot));
    }
    lemma_next_slot_is_fresh(w);
}

/// A region that was added comes back on removal as it was given: the slot
/// that the addition returned holds the very mapping, and after its removal
/// the slot is unknown.
pub proof fn lemma_remove_returns_added(v: VmMemory, guest_addr: GuestAddress, mem: MappedRegion)
    requires
        v.wf(),
        v.add_error(guest_addr, mem) is None,
    ensures
        ({
            let slot = v.next_slot() as MemSlot;
            let added = v.after_add(guest_addr, mem);
            &&& added.regions.contains_key(slot)
            &&& added.regions[slot].mem == mem
            &&& added.regions[slot].guest_addr == guest_addr
            &&& !added.after_remove(slot).regions.contains_key(slot)
            &&& added.after_remove(slot).regions == v.regions
        }),
{
    lemma_add_preserves_wf(v, guest_addr, mem);
    let slot = v.next_slot() as MemSlot;
    let added = v.after_add(guest_addr, mem);
    assert(added.after_remove(slot).regions =~= v.regions);
}

/// Of two regions whose guest ranges overlap, the one added second is
/// refused with `ENOSPC`, whichever of them goes first.
pub proof fn lemma_overlap_is_refused(
    v: VmMemory,
    first_addr: GuestAddress,
    first: MappedRegion,
    second_addr: GuestAddress,
    second: MappedRegion,
)
    requires
        v.wf(),
        v.add_error(first_addr, first) is None,
        second_addr.0 + page_round_up(second.size as int, v.page_size as int) <= u64::MAX,
        ranges_overlap(
            first_addr.0 as int,
            first_addr.0 + page_round_up(first.size as int, v.page_size as int),
            second_addr.0 as int,
            second_addr.0 + page_round_up(second.size as int, v.page_size as int),
        ),
    ensures
        v.after_add(first_addr, first).add_error(second_addr, second) == Some(
            Error { errno: ENOSPC },
        ),
{
    lemma_add_preserves_wf(v, first_addr, first);
    let slot = v.next_slot() as MemSlot;
    let added = v.after_add(first_addr, first);
    assert(added.regions.contains_key(slot));
    assert(added.regions[slot] == v.new_entry(first_addr, first));
    let end = second_addr.0 + page_round_up(second.size as int, v.page_size as int);
    assert(slots_overlap(added.regions, second_addr.0 as int, end));
}

/// A region that overlaps an initial region of the machine is refused with
/// `ENOSPC`, unless its range reaches beyond the address space.
pub proof fn lemma_overlap_with_initial_is_refused(
    v: VmMemory,
    guest_addr: GuestAddress,
    mem: MappedRegion,
    index: int,
)
    requires
        v.wf(),
        0 <= index < v.initial.len(),
        guest_addr.0 + page_round_up(mem.size as int, v.page_size as int) <= u64::MAX,
        ranges_overlap(
            v.initial[index].guest_base.0 as int,
            v.initial[index].end(),
            guest_addr.0 as int,
            guest_addr.0 + page_round_up(mem.size as int, v.page_size as int),
        ),
    ensures
        v.add_error(guest_addr, mem) == Some(Error { errno: ENOSPC }),
{
}

} // verus!

verus! {

/// The slots in use and the free slot numbers.
#[derive(Debug)]
struct SlotTable {
    regions: BTreeMap<MemSlot, MemorySlotEntry>,
    gaps: MemSlotGaps,
}

impl SlotTable {
    fn new() -> (table: SlotTable)
        ensures
            table.regions@ == Map::<MemSlot, MemorySlotEntry>::empty(),
            table.gaps@ == Set::<MemSlot>::empty(),
    {
        SlotTable { regions: BTreeMap::new(), gaps: MemSlotGaps::new() }
    }
}

/// The host's record of a virtual machine: the memory it was created with,
/// the regions added to it since, and the slot numbers free for reuse.
#[derive(Debug)]
pub struct KvmVm {
    guest_mem: GuestMemory,
    page_size: usize,
    table: SlotTable,
}

impl View for KvmVm {
    type V = VmMemory;

    closed spec fn view(&self) -> VmMemory {
        VmMemory {
            initial: self.guest_mem@,
            regions: self.table.regions@,
            free_slots: self.table.gaps@,
            page_size: self.page_size,
        }
    }
}

impl KvmVm {
    /// What holds of every virtual machine: its memory is well formed.
    #[verifier::type_invariant]
    pub open spec fn well_formed(&self) -> bool {
        self@.wf()
    }

    /// The record of a virtual machine that starts with the memory
    /// `guest_mem`, on a host with pages of `page_size` bytes.
    pub fn new(guest_mem: GuestMemory, page_size: usize) -> (vm: KvmVm)
        requires
            page_size > 0,
            guest_mem@.len() <= u32::MAX,
        ensures
            vm@.wf(),
            vm@.initial == guest_mem@,
            vm@.regions == Map::<MemSlot, MemorySlotEntry>::empty(),
            vm@.free_slots == Set::<MemSlot>::empty(),
            vm@.page_size == page_size,
    {
        proof {
            use_type_invariant(&guest_mem);
        }
        KvmVm { guest_mem, page_size, table: SlotTable::new() }
    }

    /// The guest memory that the machine was created with.
    pub fn get_memory(&self) -> (memory: &GuestMemory)
        ensures
            memory@ == self@.initial,
    {
        &self.guest_mem
    }

    /// The requests that register the initial regions with the kernel, in
    /// the order in which they are to be made: slot by slot from zero up.
    pub fn initial_memory_requests(&self) -> (requests: Vec<KvmUserspaceMemoryRegion>)
        ensures
            requests@.len() == self@.initial.len(),
            forall|i: int|
                0 <= i < requests@.len() ==> #[trigger] requests@[i] == initial_request(
                    self@.initial[i],
                    i,
                ),
    {
        proof {
            use_type_invariant(self);
        }
        let n: u64 = self.guest_mem.num_regions();
        let mut requests: Vec<KvmUserspaceMemoryRegion> = Vec::new();
        let mut i: u64 = 0;
        while i < n
            invariant
                i <= n,
                n == self.guest_mem@.len(),
                n <= u32::MAX + 1,
                requests@.len() == i,
                forall|k: int|
                    0 <= k < i ==> #[trigger] requests@[k] == initial_request(
                        self.guest_mem@[k],
                        k,
                    ),
            decreases n - i,
        {
            let region: GuestMemoryRegion = self.guest_mem.region(i as usize);
            requests.push(
                set_user_memory_region(
                    i as MemSlot,
                    false,
                    false,
                    region.guest_base.0,
                    region.size,
                    region.host_addr,
                ),
            );
            i += 1;
        }
        requests
    }

    /// Tells whether the range from `start` up to `end` overlaps the range
    /// of a slot in use.
    fn slot_range_overlap(&self, start: u64, end: u64) -> (overlap: bool)
        ensures
            overlap == slots_overlap(self@.regions, start as int, end as int),
    {
        proof {
            use_type_invariant(self);
            self.table.gaps.lemma_finite();
        }
        let first: u64 = self.guest_mem.num_regions();
        let count: u64 = self.table.regions.len() as u64 + self.table.gaps.len() as u64;
        let mut i: u64 = 0;
        while i < count
            invariant
                i <= count,
                self@.wf(),
                first == self@.initial.len(),
                first + count == self@.slot_count(),
                forall|s: MemSlot|
                    first <= s < first + i && #[trigger] self@.regions.contains_key(s)
                        ==> !ranges_overlap(
                        self@.regions[s].guest_addr.0 as int,
                        self@.regions[s].end(),
                        start as int,
                        end as int,
                    ),
            decreases count - i,
        {
            let slot: MemSlot = (first + i) as MemSlot;
            match self.table.regions.get(&slot) {
                Some(entry) => {
                    assert(self@.regions.contains_key(slot) && self@.regions[slot] == *entry);
                    assert(self@.entry_valid(self@.regions[slot]));
                    if entry.guest_addr.0 < end && start < entry.guest_addr.0 + entry.size {
                        return true;
                    }
                },
                None => {
                    assert(!self@.regions.contains_key(slot));
                },
            }
            i += 1;
        }
        false
    }

    /// Checks the guest range of a mapping to be added at `guest_addr`, and
    /// gives its length in whole pages.
    fn check_new_range(&self, guest_addr: GuestAddress, mem: MappedRegion) -> (r: Result<u64>)
        ensures
            match r {
                Ok(size) => self@.range_error(guest_addr, mem) is None && size
                    == self@.new_entry(guest_addr, mem).size,
                Err(e) => self@.range_error(guest_addr, mem) == Some(e),
            },
    {
        proof {
            use_type_invariant(self);
            assert(page_round_up(mem.size as int, self.page_size as int) >= mem.size) by {
                crate::memory::lemma_page_round_up_bounds(mem.size as int, self.page_size as int);
            }
        }
        let size: u64 = match round_up_to_page(mem.size as u64, self.page_size as u64) {
            Some(size) => size,
            None => {
                return Err(Error::new(eoverflow()));
            },
        };
        let end_addr: GuestAddress = match guest_addr.checked_add(size) {
            Some(end_addr) => end_addr,
            None => {
                return Err(Error::new(eoverflow()));
            },
        };
        if self.guest_mem.range_overlap(guest_addr, end_addr) {
            return Err(Error::new(enospc()));
        }
        if self.slot_range_overlap(guest_addr.0, end_addr.0) {
            return Err(Error::new(enospc()));
        }
        Ok(size)
    }

    /// The slot number that the next region gets, unless none is left.
    fn next_slot(&self) -> (r: Option<MemSlot>)
        ensures
            match r {
                Some(slot) => slot == self@.next_slot(),
                None => self@.next_slot() > u32::MAX,
            },
    {
        proof {
            use_type_invariant(self);
            self.table.gaps.lemma_finite();
            lemma_next_slot_is_fresh(self@);
        }
        match self.table.gaps.peek() {
            Some(gap) => {
                assert(!self@.no_free_slot()) by {
                    assert(self@.free_slots.contains(gap));
                }
                Some(gap)
            },
            None => {
                assert(self@.no_free_slot());
                let n: u64 = self.table.regions.len() as u64 + self.guest_mem.num_regions();
                if n > u32::MAX as u64 {
                    None
                } else {
                    Some(n as MemSlot)
                }
            },
        }
    }

    /// The request that registers the mapping `mem` at `guest_addr` with
    /// the kernel, if the mapping can be added there.
    pub fn memory_region_request(
        &self,
        guest_addr: GuestAddress,
        mem: MappedRegion,
        read_only: bool,
        log_dirty_pages: bool,
    ) -> (r: Result<KvmUserspaceMemoryRegion>)
        ensures
            match r {
                Ok(request) => self@.add_error(guest_addr, mem) is None && request
                    == self@.add_request(guest_addr, mem, read_only, log_dirty_pages),
                Err(e) => self@.add_error(guest_addr, mem) == Some(e),
            },
    {
        let size: u64 = match self.check_new_range(guest_addr, mem) {
            Ok(size) => size,
            Err(e) => {
                return Err(e);
            },
        };
        let slot: MemSlot = match self.next_slot() {
            Some(slot) => slot,
            None => {
                return Err(Error::new(enospc()));
            },
        };
        Ok(set_user_memory_region(slot, read_only, log_dirty_pages, guest_addr.0, size, mem.addr))
    }

    /// Adds the mapping `mem` at `guest_addr`, given what the kernel
    /// answered to the request that `memory_region_request` builds for it.
    ///
    /// A mapping that cannot be added is refused whatever the kernel said,
    /// and nothing changes. Where the kernel refused, its error comes back
    /// and the slot number chosen goes to the free ones. Otherwise the
    /// mapping is held under the slot number returned until it is removed.
    pub fn add_memory_region(
        &mut self,
        guest_addr: GuestAddress,
        mem: MappedRegion,
        kernel: Result<()>,
    ) -> (r: Result<MemSlot>)
        ensures
            final(self)@.wf(),
            match r {
                Ok(slot) => {
                    &&& old(self)@.add_error(guest_addr, mem) is None
                    &&& kernel is Ok
                    &&& slot == old(self)@.next_slot()
                    &&& !old(self)@.regions.contains_key(slot)
                    &&& final(self)@ == old(self)@.after_add(guest_addr, mem)
                },
                Err(e) => match old(self)@.add_error(guest_addr, mem) {
                    Some(refusal) => e == refusal && final(self)@ == old(self)@,
                    None => kernel == Err::<(), Error>(e) && final(self)@
                        == old(self)@.after_refused_add(),
                },
            },
    {
        proof {
            use_type_invariant(&*self);
        }
        let size: u64 = match self.check_new_range(guest_addr, mem) {
            Ok(size) => size,
            Err(e) => {
                return Err(e);
            },
        };
        let slot: MemSlot = match self.next_slot() {
            Some(slot) => slot,
            None => {
                return Err(Error::new(enospc()));
            },
        };
        let ghost before = self@;
        let mut table: SlotTable = SlotTable::new();
        core::mem::swap(&mut self.table, &mut table);
        match kernel {
            Err(e) => {
                table.gaps.push(slot);
                proof {
                    lemma_refused_add_preserves_wf(before);
                }
                self.table = table;
                assert(self@ == before.after_refused_add());
                Err(e)
            },
            Ok(_) => {
                let _ = table.gaps.pop();
                table.regions.insert(slot, MemorySlotEntry { guest_addr, size, mem });
                proof {
                    lemma_add_preserves_wf(before, guest_addr, mem);
                    lemma_next_slot_is_fresh(before);
                    if before.no_free_slot() {
                        assert(before.free_slots =~= Set::<MemSlot>::empty());
                        assert(table.gaps@ =~= before.free_slots.remove(slot));
                    } else {
                        assert(table.gaps@ =~= before.free_slots.remove(slot));
                    }
                }
                self.table = table;
                assert(self@ == before.after_add(guest_addr, mem));
                Ok(slot)
            },
        }
    }

    /// The request that releases `slot` in the kernel, if a region is held
    /// under it.
    pub fn remove_memory_region_request(&self, slot: MemSlot) -> (r: Result<
        KvmUserspaceMemoryRegion,
    >)
        ensures
            r == (if self@.regions.contains_key(slot) {
                Ok::<KvmUserspaceMemoryRegion, Error>(release_request(slot))
            } else {
                Err::<KvmUserspaceMemoryRegion, Error>(Error { errno: ENOENT })
            }),
    {
        if !self.table.regions.contains_key(&slot) {
            return Err(Error::new(enoent()));
        }
        Ok(set_user_memory_region(slot, false, false, 0, 0, 0))
    }

    /// Removes the region held under `slot`, given what the kernel
    /// answered to the request that `remove_memory_region_request` builds.
    ///
    /// Fails with `ENOENT` where no region is held under `slot`, and with
    /// the kernel's error where it refused; nothing changes then. Otherwise
    /// the mapping comes back as it was given and the slot number is free.
    pub fn remove_memory_region(&mut self, slot: MemSlot, kernel: Result<()>) -> (r: Result<
        MappedRegion,
    >)
        ensures
            final(self)@.wf(),
            match r {
                Ok(mem) => {
                    &&& old(self)@.regions.contains_key(slot)
                    &&& kernel is Ok
                    &&& mem == old(self)@.regions[slot].mem
                    &&& final(self)@ == old(self)@.after_remove(slot)
                },
                Err(e) => {
                    &&& final(self)@ == old(self)@
                    &&& if old(self)@.regions.contains_key(slot) {
                        kernel == Err::<(), Error>(e)
                    } else {
                        e.errno == ENOENT
                    }
                },
            },
    {
        proof {
            use_type_invariant(&*self);
        }
        if !self.table.regions.contains_key(&slot) {
            return Err(Error::new(enoent()));
        }
        match kernel {
            Err(e) => {
                return Err(e);
            },
            Ok(_) => {},
        }
        let ghost before = self@;
        let mut table: SlotTable = SlotTable::new();
        core::mem::swap(&mut self.table, &mut table);
        table.gaps.push(slot);
        let removed: Option<MemorySlotEntry> = table.regions.remove(&slot);
        proof {
            lemma_remove_preserves_wf(before, slot);
        }
        self.table = table;
        assert(self@ == before.after_remove(slot));
        match removed {
            Some(entry) => Ok(entry.mem),
            None => Err(Error::new(enoent())),
        }
    }
}

} // verus!

verus! {

/// Why an operation on a host mapping failed.
#[derive(Clone, Copy, Debug, PartialEq, Eq, Structural)]
pub enum MmapError {
    /// The range lies outside the mapping.
    InvalidAddress,
    /// The offset is not a multiple of the page size.
    NotPageAligned,
    /// The operating system refused, with this error.
    SystemCallFailed(Error),
    /// Any other failure.
    Other,
}

impl MappedRegion {
    /// Tells whether the `size` bytes from the byte offset `offset` on lie
    /// in the mapping; fails with `InvalidAddress` where they do not.
    pub fn check_range(&self, offset: usize, size: usize) -> (r: core::result::Result<
        (),
        MmapError,
    >)
        ensures
            r == (if offset + size <= self.size {
                Ok::<(), MmapError>(())
            } else {
                Err::<(), MmapError>(MmapError::InvalidAddress)
            }),
    {
        if offset <= self.size && size <= self.size - offset {
            Ok(())
        } else {
            Err(MmapError::InvalidAddress)
        }
    }
}

/// The kinds of device that the kernel can be asked to emulate.
#[derive(Clone, Copy, Debug, PartialEq, Eq, Structural)]
pub enum DeviceKind {
    /// The controller of devices passed through to the guest.
    Vfio,
    /// An Arm interrupt controller, version 2.
    ArmVgicV2,
    /// An Arm interrupt controller, version 3.
    ArmVgicV3,
}

/// What syncing a mapping to its backing store comes to.
pub open spec fn msync_outcome(sync: core::result::Result<(), MmapError>) -> Result<()> {
    match sync {
        Ok(_) => Ok(()),
        Err(MmapError::InvalidAddress) => Err(Error { errno: EFAULT }),
        Err(MmapError::NotPageAligned) => Err(Error { errno: EINVAL }),
        Err(MmapError::SystemCallFailed(e)) => Err(e),
        Err(MmapError::Other) => Err(Error { errno: EIO }),
    }
}

/// What mapping a file into a region, or unmapping it, comes to.
pub open spec fn fd_mapping_outcome(mapped: core::result::Result<(), MmapError>) -> Result<()> {
    match mapped {
        Ok(_) => Ok(()),
        Err(MmapError::SystemCallFailed(e)) => Err(e),
        Err(_) => Err(Error { errno: EIO }),
    }
}

/// The descriptor number that the kernel hands over in an unsigned field:
/// the same bits.
pub open spec fn descriptor_of_bits(bits: u32) -> i32 {
    if bits <= i32::MAX {
        bits as i32
    } else {
        (bits - 0x1_0000_0000) as i32
    }
}

/// The request that creates an in-kernel device, for the kinds that this
/// architecture has.
pub open spec fn device_request(kind: DeviceKind) -> Option<KvmCreateDevice> {
    match kind {
        DeviceKind::Vfio => Some(KvmCreateDevice { type_: abi::KVM_DEV_TYPE_VFIO, fd: 0, flags: 0 }),
        _ => None,
    }
}

impl KvmVm {
    /// The mapping held under `slot`, if one is.
    pub fn get_region(&self, slot: MemSlot) -> (r: Option<MappedRegion>)
        ensures
            r == (if self@.regions.contains_key(slot) {
                Some(self@.regions[slot].mem)
            } else {
                None::<MappedRegion>
            }),
    {
        match self.table.regions.get(&slot) {
            Some(entry) => Some(entry.mem),
            None => None,
        }
    }

    /// Says how syncing the mapping under `slot` to its backing store
    /// ended. `sync` is what the mapping answered; it is not looked at
    /// where no mapping is held under `slot`, which fails with `ENOENT`.
    pub fn msync_memory_region(
        &self,
        slot: MemSlot,
        sync: core::result::Result<(), MmapError>,
    ) -> (r: Result<()>)
        ensures
            r == (if self@.regions.contains_key(slot) {
                msync_outcome(sync)
            } else {
                Err::<(), Error>(Error { errno: ENOENT })
            }),
    {
        if !self.table.regions.contains_key(&slot) {
            return Err(Error::new(enoent()));
        }
        match sync {
            Ok(_) => Ok(()),
            Err(MmapError::InvalidAddress) => Err(Error::new(efault())),
            Err(MmapError::NotPageAligned) => Err(Error::new(einval())),
            Err(MmapError::SystemCallFailed(e)) => Err(e),
            Err(MmapError::Other) => Err(Error::new(eio())),
        }
    }

    /// Says how mapping a file into the region under `slot` ended. `mapped`
    /// is what the mapping answered; it is not looked at where no mapping
    /// is held under `slot`, which fails with `EINVAL`.
    pub fn add_fd_mapping(
        &self,
        slot: MemSlot,
        mapped: core::result::Result<(), MmapError>,
    ) -> (r: Result<()>)
        ensures
            r == (if self@.regions.contains_key(slot) {
                fd_mapping_outcome(mapped)
            } else {
                Err::<(), Error>(Error { errno: EINVAL })
            }),
    {
        if !self.table.regions.contains_key(&slot) {
            return Err(Error::new(einval()));
        }
        match mapped {
            Ok(_) => Ok(()),
            Err(MmapError::SystemCallFailed(e)) => Err(e),
            Err(_) => Err(Error::new(eio())),
        }
    }

    /// Says how unmapping a file from the region under `slot` ended.
    /// `unmapped` is what the mapping answered; it is not looked at where
    /// no mapping is held under `slot`, which fails with `EINVAL`.
    pub fn remove_mapping(
        &self,
        slot: MemSlot,
        unmapped: core::result::Result<(), MmapError>,
    ) -> (r: Result<()>)
        ensures
            r == (if self@.regions.contains_key(slot) {
                fd_mapping_outcome(unmapped)
            } else {
                Err::<(), Error>(Error { errno: EINVAL })
            }),
    {
        if !self.table.regions.contains_key(&slot) {
            return Err(Error::new(einval()));
        }
        match unmapped {
            Ok(_) => Ok(()),
            Err(MmapError::SystemCallFailed(e)) => Err(e),
            Err(_) => Err(Error::new(eio())),
        }
    }

    /// The request that fetches the dirty log of `slot` into a buffer of
    /// `dirty_log_len` bytes. Fails with `ENOENT` where no region is held
    /// under `slot`, and with `EINVAL` where the buffer has less than one
    /// bit for each page of the region.
    pub fn get_dirty_log(&self, slot: MemSlot, dirty_log_len: usize) -> (r: Result<KvmDirtyLog>)
        ensures
            r == (if !self@.regions.contains_key(slot) {
                Err::<KvmDirtyLog, Error>(Error { errno: ENOENT })
            } else if dirty_log_bitmap_bytes(
                self@.regions[slot].mem.size as int,
                self@.page_size as int,
            ) > dirty_log_len {
                Err::<KvmDirtyLog, Error>(Error { errno: EINVAL })
            } else {
                Ok::<KvmDirtyLog, Error>(KvmDirtyLog { slot })
            }),
    {
        proof {
            use_type_invariant(self);
        }
        let size: usize = match self.table.regions.get(&slot) {
            Some(entry) => entry.mem.size,
            None => {
                return Err(Error::new(enoent()));
            },
        };
        if dirty_log_bitmap_size(size, self.page_size) > dirty_log_len {
            return Err(Error::new(einval()));
        }
        Ok(KvmDirtyLog { slot })
    }

    /// Says what creating a device came to: the descriptor that the kernel
    /// put into the request's record, `fd`, unless the request failed, which
    /// `ret` other than zero tells, with the error number `errno`.
    pub fn device_created(&self, ret: i32, errno: i32, fd: u32) -> (r: Result<i32>)
        ensures
            r == (if ret == 0 {
                Ok::<i32, Error>(descriptor_of_bits(fd))
            } else {
                Err::<i32, Error>(Error { errno })
            }),
    {
        if ret == 0 {
            assert(fd > 0x7fff_ffff ==> (fd as i32) == (fd - 0x1_0000_0000) as i32)
                by (bit_vector);
            Ok(
                #[verifier::truncate]
                (fd as i32),
            )
        } else {
            Err(Error::new(errno))
        }
    }

    /// The request that creates an in-kernel device of the given kind.
    /// Fails with `ENXIO` for a kind that this architecture does not have.
    pub fn create_device(&self, kind: DeviceKind) -> (r: Result<KvmCreateDevice>)
        ensures
            r == (match device_request(kind) {
                Some(request) => Ok::<KvmCreateDevice, Error>(request),
                None => Err::<KvmCreateDevice, Error>(Error { errno: ENXIO }),
            }),
    {
        match kind {
            DeviceKind::Vfio => Ok(
                KvmCreateDevice { type_: abi::KVM_DEV_TYPE_VFIO, fd: 0, flags: 0 },
            ),
            _ => Err(Error::new(enxio())),
        }
    }
}

} // verus!
