//! The memory map of an x86-64 guest: where its memory lies around the gap
//! below four gigabytes, what the boot parameters tell the kernel of it, and
//! where device memory goes.

use vstd::prelude::*;
use crate::memory::{layout_contains, layout_end, page_round_up, GuestAddress, GuestMemory};

verus! {

/// Memory type of the boot memory map: usable memory.
pub const E820_RAM: u32 = 1;

/// Size of the gap below four gigabytes that is left to devices.
pub const MEM_32BIT_GAP_SIZE: u64 = 0x3000_0000;

/// The first address that takes more than 32 bits.
pub const FIRST_ADDR_PAST_32BITS: u64 = 0x1_0000_0000;

/// Where the gap below four gigabytes starts.
pub const END_ADDR_BEFORE_32BITS: u64 = 0xd000_0000;

/// Size of the low area of memory-mapped I/O.
pub const MMIO_SIZE: u64 = 0x2800_0000;

/// Where the high area of memory-mapped I/O ends at the latest.
pub const HIGH_MMIO_MAX_END: u64 = 0x4000_0000_0000;

pub const BOOT_STACK_POINTER: u64 = 0x8000;

pub const KERNEL_64BIT_ENTRY_OFFSET: u64 = 0x200;

pub const ZERO_PAGE_OFFSET: u64 = 0x7000;

pub const TSS_ADDR: u64 = 0xfffb_d000;

pub const KERNEL_START_OFFSET: u64 = 0x20_0000;

pub const CMDLINE_OFFSET: u64 = 0x2_0000;

pub const CMDLINE_MAX_SIZE: u64 = 0x1e_0000;

pub const X86_64_SERIAL_1_3_IRQ: u32 = 4;

pub const X86_64_SERIAL_2_4_IRQ: u32 = 3;

/// The interrupt line of the system control interrupt.
pub const X86_64_SCI_IRQ: u32 = 5;

/// The first interrupt line that is handed out to devices.
pub const X86_64_IRQ_BASE: u32 = 9;

/// Where the extended BIOS data area starts.
pub const EBDA_START: u64 = 0x0009_fc00;

pub const KERNEL_BOOT_FLAG_MAGIC: u16 = 0xaa55;

pub const KERNEL_HDR_MAGIC: u32 = 0x5372_6448;

pub const KERNEL_LOADER_OTHER: u8 = 0xff;

pub const KERNEL_MIN_ALIGNMENT_BYTES: u32 = 0x100_0000;

/// Number of entries that the boot memory map has room for.
pub const E820_MAX_ENTRIES: usize = 128;

/// Size of the boot parameters in guest memory.
pub const BOOT_PARAMS_SIZE: u64 = 4096;

/// Size of the area that memory sizes are rounded to when device memory is
/// placed.
pub const HIGH_MMIO_ALIGNMENT: u64 = 0x20_0000;

/// Why setting up an x86-64 guest failed.
#[derive(Clone, Copy, Debug, PartialEq, Eq, Structural)]
pub enum Error {
    /// The boot memory map has no room for another entry.
    E820Configuration,
    /// The kernel's entry point lies behind the guest's memory.
    KernelOffsetPastEnd,
    /// The BIOS image does not fit below four gigabytes.
    LoadBios,
    /// A page table entry on the way to an address is not present.
    PageNotPresent,
    /// An address could not be translated.
    TranslatingVirtAddr,
    /// Protected virtual machines do not exist on this architecture.
    UnsupportedProtectionType,
    /// The boot parameters reach behind the guest's memory.
    ZeroPagePastRamEnd,
}

pub type Result<T> = core::result::Result<T, Error>;

/// Where a BIOS image of `bios_size` bytes starts: it ends where the first
/// four gigabytes end, which is where the processor starts to run.
pub fn bios_start(bios_size: u64) -> (start: GuestAddress)
    requires
        bios_size <= FIRST_ADDR_PAST_32BITS,
    ensures
        start.0 == FIRST_ADDR_PAST_32BITS - bios_size,
{
    GuestAddress(FIRST_ADDR_PAST_32BITS - bios_size)
}

/// The guest address ranges that hold memory, for a guest with `size` bytes
/// of memory: all of it from address zero where it ends before the gap
/// below four gigabytes, else the part before the gap and the rest from
/// four gigabytes on. A BIOS image gets a range of its own, after the
/// first.
pub open spec fn memory_regions(size: u64, bios_size: Option<u64>) -> Seq<(GuestAddress, u64)> {
    let low: u64 = if size <= END_ADDR_BEFORE_32BITS {
        size
    } else {
        END_ADDR_BEFORE_32BITS
    };
    let first = seq![(GuestAddress(0), low)];
    let with_bios = match bios_size {
        Some(b) => first.push((GuestAddress((FIRST_ADDR_PAST_32BITS - b) as u64), b)),
        None => first,
    };
    if size <= END_ADDR_BEFORE_32BITS {
        with_bios
    } else {
        with_bios.push(
            (GuestAddress(FIRST_ADDR_PAST_32BITS), (size - END_ADDR_BEFORE_32BITS) as u64),
        )
    }
}

/// Returns the guest address ranges that hold memory.
pub fn arch_memory_regions(size: u64, bios_size: Option<u64>) -> (regions: Vec<
    (GuestAddress, u64),
>)
    requires
        bios_size matches Some(b) ==> b <= FIRST_ADDR_PAST_32BITS,
    ensures
        regions@ == memory_regions(size, bios_size),
{
    let mem_end = GuestAddress(size);
    let first_addr_past_32bits = GuestAddress(FIRST_ADDR_PAST_32BITS);
    let end_32bit_gap_start = GuestAddress(END_ADDR_BEFORE_32BITS);
    let mut regions: Vec<(GuestAddress, u64)> = Vec::new();
    if mem_end.0 <= end_32bit_gap_start.0 {
        regions.push((GuestAddress(0), size));
        if let Some(bios_size) = bios_size {
            regions.push((bios_start(bios_size), bios_size));
        }
    } else {
        regions.push((GuestAddress(0), end_32bit_gap_start.offset()));
        if let Some(bios_size) = bios_size {
            regions.push((bios_start(bios_size), bios_size));
        }
        regions.push((first_addr_past_32bits, mem_end.offset_from(end_32bit_gap_start)));
    }
    assert(regions@ =~= memory_regions(size, bios_size));
    regions
}

/// The sum of the sizes of the regions that start below four gigabytes, and
/// of those that start above.
pub open spec fn memory_below_and_above_4g(size: u64) -> (u64, u64) {
    if size <= END_ADDR_BEFORE_32BITS {
        (size, 0)
    } else {
        (END_ADDR_BEFORE_32BITS, (size - END_ADDR_BEFORE_32BITS) as u64)
    }
}

/// Where the high area of memory-mapped I/O starts for a guest whose memory
/// ends at `mem_end`: at the next boundary of two megabytes, and not below
/// four gigabytes.
pub open spec fn high_mmio_base(mem_end: u64) -> int {
    let rounded = page_round_up(mem_end as int, HIGH_MMIO_ALIGNMENT as int);
    if rounded > FIRST_ADDR_PAST_32BITS {
        rounded
    } else {
        FIRST_ADDR_PAST_32BITS as int
    }
}

/// Where the high area of memory-mapped I/O ends: where the physical
/// address space ends, and not behind `HIGH_MMIO_MAX_END`.
pub open spec fn high_mmio_end(phys_max_addr: u64) -> int {
    if phys_max_addr + 1 < HIGH_MMIO_MAX_END {
        phys_max_addr + 1
    } else {
        HIGH_MMIO_MAX_END as int
    }
}

/// The x86-64 architecture.
#[derive(Clone, Copy, Debug, PartialEq, Eq, Structural)]
pub struct X8664arch;

impl X8664arch {
    /// The guest address ranges that hold memory, for a guest with
    /// `memory_size` bytes of memory and a BIOS image of `bios_size` bytes,
    /// if it has one.
    pub fn guest_memory_layout(memory_size: u64, bios_size: Option<u64>) -> (regions: Vec<
        (GuestAddress, u64),
    >)
        requires
            bios_size matches Some(b) ==> b <= FIRST_ADDR_PAST_32BITS,
        ensures
            regions@ == memory_regions(memory_size, bios_size),
    {
        arch_memory_regions(memory_size, bios_size)
    }

    /// The highest physical address of a processor with addresses of
    /// `phy_max_address_bits` bits.
    pub fn get_phys_max_addr(phy_max_address_bits: u32) -> (addr: u64)
        requires
            phy_max_address_bits < 64,
        ensures
            addr == (1u64 << phy_max_address_bits) - 1,
    {
        assert((1u64 << phy_max_address_bits) >= 1) by (bit_vector)
            requires
                phy_max_address_bits < 64,
        ;
        (1u64 << phy_max_address_bits) - 1
    }

    /// Where the high area of memory-mapped I/O starts for a guest whose
    /// memory ends at `mem_end`.
    pub fn get_high_mmio_base(mem_end: u64) -> (base: u64)
        requires
            mem_end <= u64::MAX - HIGH_MMIO_ALIGNMENT,
        ensures
            base == high_mmio_base(mem_end),
    {
        proof {
            crate::memory::lemma_page_round_up_bounds(mem_end as int, HIGH_MMIO_ALIGNMENT as int);
        }
        let rounded: u64 = match crate::memory::round_up_to_page(mem_end, HIGH_MMIO_ALIGNMENT) {
            Some(rounded) => rounded,
            None => FIRST_ADDR_PAST_32BITS,
        };
        if rounded > FIRST_ADDR_PAST_32BITS {
            rounded
        } else {
            FIRST_ADDR_PAST_32BITS
        }
    }

    /// The size of the high area of memory-mapped I/O for a guest whose
    /// memory ends at `mem_end`, on a processor whose highest physical
    /// address is `phys_max_addr`.
    pub fn get_high_mmio_size(mem_end: u64, phys_max_addr: u64) -> (size: u64)
        requires
            mem_end <= u64::MAX - HIGH_MMIO_ALIGNMENT,
            high_mmio_base(mem_end) <= high_mmio_end(phys_max_addr),
        ensures
            size == high_mmio_end(phys_max_addr) - high_mmio_base(mem_end),
    {
        let end: u64 = if phys_max_addr < HIGH_MMIO_MAX_END - 1 {
            phys_max_addr + 1
        } else {
            HIGH_MMIO_MAX_END
        };
        end - Self::get_high_mmio_base(mem_end)
    }

    /// The sizes of the memory below and above four gigabytes that the
    /// real-time clock reports, for a guest with `mem_size` bytes of
    /// memory.
    pub fn memory_below_and_above_4g(mem_size: u64) -> (sizes: (u64, u64))
        ensures
            sizes == memory_below_and_above_4g(mem_size),
    {
        let regions = arch_memory_regions(mem_size, None);
        let mut below: u64 = 0;
        let mut above: u64 = 0;
        let mut i: usize = 0;
        while i < regions.len()
            invariant
                i <= regions@.len(),
                regions@ == memory_regions(mem_size, None),
                i == 0 ==> below == 0 && above == 0,
                i == 1 ==> below == regions@[0].1 && above == 0,
                i == 2 ==> below == regions@[0].1 && above == regions@[1].1,
            decreases regions@.len() - i,
        {
            let region: (GuestAddress, u64) = regions[i];
            if region.0.offset() < FIRST_ADDR_PAST_32BITS {
                below = below + region.1;
            } else {
                above = above + region.1;
            }
            i += 1;
        }
        (below, above)
    }
}

} // verus!

verus! {

/// One entry of the boot memory map.
#[derive(Clone, Copy, Debug, PartialEq, Eq, Structural)]
pub struct BootE820Entry {
    pub addr: u64,
    pub size: u64,
    pub type_: u32,
}

/// The part of the kernel's setup header that the host fills in or reads.
#[derive(Clone, Copy, Debug, PartialEq, Eq, Structural)]
pub struct SetupHeader {
    pub type_of_loader: u8,
    pub boot_flag: u16,
    pub header: u32,
    pub cmd_line_ptr: u32,
    pub cmdline_size: u32,
    pub kernel_alignment: u32,
    pub setup_data: u64,
    pub ramdisk_image: u32,
    pub ramdisk_size: u32,
    pub initrd_addr_max: u32,
}

/// The boot parameters that the host hands to the kernel, as far as the
/// host touches them.
#[derive(Clone, Copy, Debug, PartialEq, Eq)]
pub struct BootParams {
    pub hdr: SetupHeader,
    pub e820_entries: u8,
    pub e820_table: [BootE820Entry; 128],
}

/// The low 32 bits of a number.
pub open spec fn low_32_bits(x: u64) -> u32 {
    (x % 0x1_0000_0000) as u32
}

/// Returns the low 32 bits of a number.
pub fn low_u32(x: u64) -> (low: u32)
    ensures
        low == low_32_bits(x),
{
    assert((x & 0xffff_ffff) == x % 0x1_0000_0000) by (bit_vector);
    (x & 0xffff_ffff) as u32
}

/// Adds an entry to the boot memory map. Fails with `E820Configuration`
/// where the map is full, and leaves it as it was.
pub fn add_e820_entry(params: &mut BootParams, addr: u64, size: u64, mem_type: u32) -> (r: Result<
    (),
>)
    ensures
        final(params).hdr == old(params).hdr,
        match r {
            Ok(_) => {
                &&& old(params).e820_entries < E820_MAX_ENTRIES
                &&& final(params).e820_entries == old(params).e820_entries + 1
                &&& final(params).e820_table@ == old(params).e820_table@.update(
                    old(params).e820_entries as int,
                    BootE820Entry { addr, size, type_: mem_type },
                )
            },
            Err(e) => {
                &&& old(params).e820_entries >= E820_MAX_ENTRIES
                &&& e == Error::E820Configuration
                &&& final(params).e820_entries == old(params).e820_entries
                &&& final(params).e820_table@ == old(params).e820_table@
            },
        },
{
    if params.e820_entries as usize >= E820_MAX_ENTRIES {
        return Err(Error::E820Configuration);
    }
    let index: usize = params.e820_entries as usize;
    let mut table: [BootE820Entry; 128] = params.e820_table;
    table[index] = BootE820Entry { addr, size, type_: mem_type };
    params.e820_table = table;
    params.e820_entries = params.e820_entries + 1;
    Ok(())
}

/// The ranges of usable memory that the boot memory map reports for a
/// guest whose memory ends at `mem_end` and whose kernel is loaded at
/// `kernel_addr`, each with its start and its length: the memory below the
/// extended BIOS data area, the memory from the kernel up to the gap below
/// four gigabytes or to the end of memory, and what lies above four
/// gigabytes.
pub open spec fn e820_ram_ranges(mem_end: u64, kernel_addr: u64) -> Seq<(u64, u64)> {
    let low = seq![(0u64, EBDA_START)];
    if mem_end < END_ADDR_BEFORE_32BITS {
        low.push((kernel_addr, (mem_end - kernel_addr) as u64))
    } else if mem_end > FIRST_ADDR_PAST_32BITS {
        low.push((kernel_addr, (END_ADDR_BEFORE_32BITS - kernel_addr) as u64)).push(
            (FIRST_ADDR_PAST_32BITS, (mem_end - FIRST_ADDR_PAST_32BITS) as u64),
        )
    } else {
        low.push((kernel_addr, (END_ADDR_BEFORE_32BITS - kernel_addr) as u64))
    }
}

/// The setup header once the host has filled it in.
pub open spec fn configured_header(
    hdr: SetupHeader,
    cmdline_addr: GuestAddress,
    cmdline_size: usize,
    setup_data: Option<GuestAddress>,
    initrd: Option<(GuestAddress, usize)>,
) -> SetupHeader {
    SetupHeader {
        type_of_loader: KERNEL_LOADER_OTHER,
        boot_flag: KERNEL_BOOT_FLAG_MAGIC,
        header: KERNEL_HDR_MAGIC,
        cmd_line_ptr: low_32_bits(cmdline_addr.0),
        cmdline_size: low_32_bits(cmdline_size as u64),
        kernel_alignment: KERNEL_MIN_ALIGNMENT_BYTES,
        setup_data: match setup_data {
            Some(addr) => addr.0,
            None => hdr.setup_data,
        },
        ramdisk_image: match initrd {
            Some((addr, _)) => low_32_bits(addr.0),
            None => hdr.ramdisk_image,
        },
        ramdisk_size: match initrd {
            Some((_, size)) => low_32_bits(size as u64),
            None => hdr.ramdisk_size,
        },
        initrd_addr_max: hdr.initrd_addr_max,
    }
}

/// Whether `table` is `before` with the ranges `ranges` entered as usable
/// memory from the index `first` on.
pub open spec fn e820_ranges_entered(
    table: Seq<BootE820Entry>,
    before: Seq<BootE820Entry>,
    first: int,
    ranges: Seq<(u64, u64)>,
) -> bool {
    &&& table.len() == before.len()
    &&& forall|i: int|
        0 <= i < table.len() ==> #[trigger] table[i] == (if first <= i < first + ranges.len() {
            BootE820Entry { addr: ranges[i - first].0, size: ranges[i - first].1, type_: E820_RAM }
        } else {
            before[i]
        })
}

/// Fills in the boot parameters for a guest with the memory `guest_mem`:
/// the setup header and the map of usable memory. The result is what the
/// caller writes to guest memory at `ZERO_PAGE_OFFSET`.
///
/// Fails with `E820Configuration` where the memory map has no room for the
/// ranges, and with `ZeroPagePastRamEnd` where the boot parameters would
/// reach behind the guest's memory.
pub fn configure_system(
    guest_mem: &GuestMemory,
    kernel_addr: GuestAddress,
    cmdline_addr: GuestAddress,
    cmdline_size: usize,
    setup_data: Option<GuestAddress>,
    initrd: Option<(GuestAddress, usize)>,
    params: BootParams,
) -> (r: Result<BootParams>)
    requires
        kernel_addr.0 <= layout_end(guest_mem@),
        kernel_addr.0 <= END_ADDR_BEFORE_32BITS,
    ensures
        ({
            let ranges = e820_ram_ranges(layout_end(guest_mem@) as u64, kernel_addr.0);
            match r {
                Ok(configured) => {
                    &&& params.e820_entries + ranges.len() <= E820_MAX_ENTRIES
                    &&& layout_contains(guest_mem@, ZERO_PAGE_OFFSET + BOOT_PARAMS_SIZE)
                    &&& configured.hdr == configured_header(
                        params.hdr,
                        cmdline_addr,
                        cmdline_size,
                        setup_data,
                        initrd,
                    )
                    &&& configured.e820_entries == params.e820_entries + ranges.len()
                    &&& e820_ranges_entered(
                        configured.e820_table@,
                        params.e820_table@,
                        params.e820_entries as int,
                        ranges,
                    )
                },
                Err(e) => if params.e820_entries + ranges.len() > E820_MAX_ENTRIES {
                    e == Error::E820Configuration
                } else {
                    &&& !layout_contains(guest_mem@, ZERO_PAGE_OFFSET + BOOT_PARAMS_SIZE)
                    &&& e == Error::ZeroPagePastRamEnd
                },
            }
        }),
{
    let mut params = params;
    let ghost before = params;
    let mut hdr: SetupHeader = params.hdr;
    hdr.type_of_loader = KERNEL_LOADER_OTHER;
    hdr.boot_flag = KERNEL_BOOT_FLAG_MAGIC;
    hdr.header = KERNEL_HDR_MAGIC;
    hdr.cmd_line_ptr = low_u32(cmdline_addr.offset());
    hdr.cmdline_size = low_u32(cmdline_size as u64);
    hdr.kernel_alignment = KERNEL_MIN_ALIGNMENT_BYTES;
    if let Some(setup_data) = setup_data {
        hdr.setup_data = setup_data.offset();
    }
    if let Some((initrd_addr, initrd_size)) = initrd {
        hdr.ramdisk_image = low_u32(initrd_addr.offset());
        hdr.ramdisk_size = low_u32(initrd_size as u64);
    }
    params.hdr = hdr;

    match add_e820_entry(&mut params, 0, EBDA_START, E820_RAM) {
        Ok(_) => {},
        Err(e) => {
            return Err(e);
        },
    }
    let mem_end: GuestAddress = guest_mem.end_addr();
    if mem_end.0 < END_ADDR_BEFORE_32BITS {
        match add_e820_entry(
            &mut params,
            kernel_addr.offset(),
            mem_end.offset_from(kernel_addr),
            E820_RAM,
        ) {
            Ok(_) => {},
            Err(e) => {
                return Err(e);
            },
        }
    } else {
        match add_e820_entry(
            &mut params,
            kernel_addr.offset(),
            GuestAddress(END_ADDR_BEFORE_32BITS).offset_from(kernel_addr),
            E820_RAM,
        ) {
            Ok(_) => {},
            Err(e) => {
                return Err(e);
            },
        }
        if mem_end.0 > FIRST_ADDR_PAST_32BITS {
            match add_e820_entry(
                &mut params,
                FIRST_ADDR_PAST_32BITS,
                mem_end.offset_from(GuestAddress(FIRST_ADDR_PAST_32BITS)),
                E820_RAM,
            ) {
                Ok(_) => {},
                Err(e) => {
                    return Err(e);
                },
            }
        }
    }
    if guest_mem.checked_offset(GuestAddress(ZERO_PAGE_OFFSET), BOOT_PARAMS_SIZE).is_none() {
        return Err(Error::ZeroPagePastRamEnd);
    }
    Ok(params)
}

} // verus!

verus! {

/// Whether the host can read a guest's memory.
#[derive(Clone, Copy, Debug, PartialEq, Eq, Structural)]
pub enum ProtectionType {
    /// It can.
    Unprotected,
    /// It cannot.
    Protected,
}

/// An address range by its first address and its length.
#[derive(Clone, Copy, Debug, PartialEq, Eq, Structural)]
pub struct AddressRange {
    pub start: u64,
    pub len: u64,
}

/// The address ranges and the interrupt line from which the resources of
/// devices are handed out.
#[derive(Clone, Copy, Debug, PartialEq, Eq, Structural)]
pub struct AllocatorRanges {
    /// I/O ports.
    pub io: AddressRange,
    /// Memory-mapped I/O below four gigabytes.
    pub low_mmio: AddressRange,
    /// Memory-mapped I/O above the guest's memory.
    pub high_mmio: AddressRange,
    /// The first interrupt line.
    pub first_irq: u32,
}

/// Where the I/O ports that are handed out to devices start.
pub const IO_PORTS_START: u64 = 0xc000;

/// How many I/O ports there are to hand out.
pub const IO_PORTS_LEN: u64 = 0x1_0000;

/// The greatest address of an initial RAM disk for kernels that name none.
pub const DEFAULT_INITRD_ADDR_MAX: u64 = 0x37ff_ffff;

/// Alignment of the device tree in guest memory.
pub const DTB_ALIGNMENT: u64 = 64;

/// Where the device tree goes, for a kernel that ends at `free_addr`: at
/// the next boundary of 64 bytes, and 64 bytes further.
pub open spec fn dtb_start_after(free_addr: u64) -> int {
    page_round_up(free_addr as int, DTB_ALIGNMENT as int) + DTB_ALIGNMENT
}

/// The greatest address that an initial RAM disk may reach: the one that
/// the kernel names in `initrd_addr_max`, a default where it names none,
/// and in no case beyond the last byte of memory.
pub open spec fn initrd_limit(initrd_addr_max: u32, mem_end: u64) -> u64 {
    let named: u64 = if initrd_addr_max == 0 {
        DEFAULT_INITRD_ADDR_MAX
    } else {
        initrd_addr_max as u64
    };
    if named > mem_end - 1 {
        (mem_end - 1) as u64
    } else {
        named
    }
}

/// The I/O ports of the keyboard controller, which leaves port 0x61 to the
/// timer where the timer drives the speaker from it.
pub open spec fn i8042_ports(pit_uses_speaker_port: bool) -> AddressRange {
    if pit_uses_speaker_port {
        AddressRange { start: 0x062, len: 0x3 }
    } else {
        AddressRange { start: 0x061, len: 0x4 }
    }
}

/// Whether a system description table with this signature tells the guest
/// of its interrupts.
pub open spec fn describes_interrupts(signature: Seq<u8>) -> bool {
    signature == seq![0x44u8, 0x53u8, 0x44u8, 0x54u8] || signature == seq![
        0x41u8,
        0x50u8,
        0x49u8,
        0x43u8,
    ]
}

impl X8664arch {
    /// Tells whether a guest of the given protection can be built. None
    /// that the host cannot read can; it fails with
    /// `UnsupportedProtectionType`.
    pub fn check_protection(protected_vm: ProtectionType) -> (r: Result<()>)
        ensures
            r == (match protected_vm {
                ProtectionType::Unprotected => Ok::<(), Error>(()),
                ProtectionType::Protected => Err::<(), Error>(Error::UnsupportedProtectionType),
            }),
    {
        match protected_vm {
            ProtectionType::Unprotected => Ok(()),
            ProtectionType::Protected => Err(Error::UnsupportedProtectionType),
        }
    }

    /// The ranges from which the resources of devices are handed out, for a
    /// guest whose memory ends at `mem_end`, on a processor whose highest
    /// physical address is `phys_max_addr`.
    pub fn create_system_allocator(mem_end: u64, phys_max_addr: u64) -> (ranges: AllocatorRanges)
        requires
            mem_end <= u64::MAX - HIGH_MMIO_ALIGNMENT,
            high_mmio_base(mem_end) <= high_mmio_end(phys_max_addr),
        ensures
            ranges.io == (AddressRange { start: IO_PORTS_START, len: IO_PORTS_LEN }),
            ranges.low_mmio == (AddressRange { start: END_ADDR_BEFORE_32BITS, len: MMIO_SIZE }),
            ranges.high_mmio.start == high_mmio_base(mem_end),
            ranges.high_mmio.len == high_mmio_end(phys_max_addr) - high_mmio_base(mem_end),
            ranges.first_irq == X86_64_IRQ_BASE,
    {
        let high_mmio_start: u64 = Self::get_high_mmio_base(mem_end);
        let high_mmio_size: u64 = Self::get_high_mmio_size(mem_end, phys_max_addr);
        AllocatorRanges {
            io: AddressRange { start: IO_PORTS_START, len: IO_PORTS_LEN },
            low_mmio: AddressRange { start: END_ADDR_BEFORE_32BITS, len: MMIO_SIZE },
            high_mmio: AddressRange { start: high_mmio_start, len: high_mmio_size },
            first_irq: X86_64_IRQ_BASE,
        }
    }

    /// Tells whether the kernel has to be told to take no interrupt
    /// routing from the system description tables: it has, unless one of
    /// the tables, given by their signatures, describes the interrupts.
    pub fn needs_noirq(signatures: &[[u8; 4]]) -> (noirq: bool)
        ensures
            noirq == !(exists|i: int|
                0 <= i < signatures@.len() && describes_interrupts(
                    (#[trigger] signatures@[i])@,
                )),
    {
        let mut noirq: bool = true;
        let mut i: usize = 0;
        while i < signatures.len()
            invariant
                i <= signatures@.len(),
                noirq == !(exists|k: int|
                    0 <= k < i && describes_interrupts((#[trigger] signatures@[k])@)),
            decreases signatures@.len() - i,
        {
            let s: [u8; 4] = signatures[i];
            let dsdt: bool = s[0] == 0x44 && s[1] == 0x53 && s[2] == 0x44 && s[3] == 0x54;
            let apic: bool = s[0] == 0x41 && s[1] == 0x50 && s[2] == 0x49 && s[3] == 0x43;
            proof {
                assert(dsdt == (s@ == seq![0x44u8, 0x53u8, 0x44u8, 0x54u8])) by {
                    if dsdt {
                        assert(s@ =~= seq![0x44u8, 0x53u8, 0x44u8, 0x54u8]);
                    }
                }
                assert(apic == (s@ == seq![0x41u8, 0x50u8, 0x49u8, 0x43u8])) by {
                    if apic {
                        assert(s@ =~= seq![0x41u8, 0x50u8, 0x49u8, 0x43u8]);
                    }
                }
            }
            if dsdt || apic {
                noirq = false;
            }
            i += 1;
        }
        noirq
    }

    /// Where a virtual CPU starts to run a kernel: at the 64-bit entry
    /// point behind the kernel's load address. Fails with
    /// `KernelOffsetPastEnd` where that lies outside the guest's memory.
    pub fn kernel_entry_point(guest_mem: &GuestMemory) -> (r: Result<u64>)
        ensures
            r == (if layout_contains(guest_mem@, KERNEL_START_OFFSET + KERNEL_64BIT_ENTRY_OFFSET) {
                Ok::<u64, Error>((KERNEL_START_OFFSET + KERNEL_64BIT_ENTRY_OFFSET) as u64)
            } else {
                Err::<u64, Error>(Error::KernelOffsetPastEnd)
            }),
    {
        match guest_mem.checked_offset(
            GuestAddress(KERNEL_START_OFFSET),
            KERNEL_64BIT_ENTRY_OFFSET,
        ) {
            Some(kernel_end) => Ok(kernel_end.offset()),
            None => Err(Error::KernelOffsetPastEnd),
        }
    }

    /// Tells where a BIOS image of `bios_image_length` bytes is loaded.
    /// Fails with `LoadBios` where the image does not fit below four
    /// gigabytes.
    pub fn load_bios(bios_image_length: u64) -> (r: Result<GuestAddress>)
        ensures
            r == (if bios_image_length >= FIRST_ADDR_PAST_32BITS {
                Err::<GuestAddress, Error>(Error::LoadBios)
            } else {
                Ok::<GuestAddress, Error>(
                    GuestAddress((FIRST_ADDR_PAST_32BITS - bios_image_length) as u64),
                )
            }),
    {
        if bios_image_length >= FIRST_ADDR_PAST_32BITS {
            return Err(Error::LoadBios);
        }
        Ok(bios_start(bios_image_length))
    }

    /// Where the device tree goes, for a kernel that ends at `free_addr`.
    pub fn dtb_start(free_addr: u64) -> (start: GuestAddress)
        requires
            free_addr <= u64::MAX - 2 * DTB_ALIGNMENT,
        ensures
            start.0 == dtb_start_after(free_addr),
    {
        proof {
            crate::memory::lemma_page_round_up_bounds(free_addr as int, DTB_ALIGNMENT as int);
        }
        let aligned: u64 = match crate::memory::round_up_to_page(free_addr, DTB_ALIGNMENT) {
            Some(aligned) => aligned,
            None => free_addr,
        };
        GuestAddress(aligned + DTB_ALIGNMENT)
    }

    /// The greatest address that an initial RAM disk may reach in a guest
    /// whose memory ends at `mem_end`, for a kernel whose setup header
    /// names `initrd_addr_max`.
    pub fn initrd_addr_max(initrd_addr_max: u32, mem_end: u64) -> (limit: u64)
        requires
            mem_end > 0,
        ensures
            limit == initrd_limit(initrd_addr_max, mem_end),
    {
        let mut limit: u64 = initrd_addr_max as u64;
        if limit == 0 {
            limit = DEFAULT_INITRD_ADDR_MAX;
        }
        let mem_max: u64 = mem_end - 1;
        if limit > mem_max {
            limit = mem_max;
        }
        limit
    }

    /// The I/O ports at which the keyboard controller goes.
    pub fn i8042_ports(pit_uses_speaker_port: bool) -> (ports: AddressRange)
        ensures
            ports == i8042_ports(pit_uses_speaker_port),
    {
        if pit_uses_speaker_port {
            AddressRange { start: 0x062, len: 0x3 }
        } else {
            AddressRange { start: 0x061, len: 0x4 }
        }
    }
}

} // verus!
