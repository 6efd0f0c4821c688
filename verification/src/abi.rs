//! Numbers and record layouts that the kernel's virtual machine interface
//! fixes. They are a wire format: the kernel defines them and this crate
//! only marshals to and from them.

use vstd::prelude::*;

verus! {

/// Memory slot flag: the kernel tracks which pages the guest writes.
pub const KVM_MEM_LOG_DIRTY_PAGES: u32 = 1;

/// Memory slot flag: the guest may not write to the slot.
pub const KVM_MEM_READONLY: u32 = 2;

/// Interrupt event flag: remove the binding instead of adding it.
pub const KVM_IRQFD_FLAG_DEASSIGN: u32 = 1;

/// Interrupt event flag: the request carries a resample event.
pub const KVM_IRQFD_FLAG_RESAMPLE: u32 = 2;

/// I/O event flag: fire only on a write of a matching value.
pub const KVM_IOEVENTFD_FLAG_DATAMATCH: u32 = 1;

/// I/O event flag: the address is a port number.
pub const KVM_IOEVENTFD_FLAG_PIO: u32 = 2;

/// I/O event flag: remove the binding instead of adding it.
pub const KVM_IOEVENTFD_FLAG_DEASSIGN: u32 = 4;

/// Routing entry type: a pin of an in-kernel interrupt controller.
pub const KVM_IRQ_ROUTING_IRQCHIP: u32 = 1;

/// Routing entry type: a message-signaled interrupt.
pub const KVM_IRQ_ROUTING_MSI: u32 = 2;

/// In-kernel interrupt controller numbers.
pub const KVM_IRQCHIP_PIC_MASTER: u32 = 0;

pub const KVM_IRQCHIP_PIC_SLAVE: u32 = 1;

pub const KVM_IRQCHIP_IOAPIC: u32 = 2;

/// Device type of the in-kernel passthrough I/O controller.
pub const KVM_DEV_TYPE_VFIO: u32 = 4;

/// Exit reasons that the run-state page reports.
pub const KVM_EXIT_UNKNOWN: u32 = 0;

pub const KVM_EXIT_EXCEPTION: u32 = 1;

pub const KVM_EXIT_IO: u32 = 2;

pub const KVM_EXIT_HYPERCALL: u32 = 3;

pub const KVM_EXIT_DEBUG: u32 = 4;

pub const KVM_EXIT_HLT: u32 = 5;

pub const KVM_EXIT_MMIO: u32 = 6;

pub const KVM_EXIT_IRQ_WINDOW_OPEN: u32 = 7;

pub const KVM_EXIT_SHUTDOWN: u32 = 8;

pub const KVM_EXIT_FAIL_ENTRY: u32 = 9;

pub const KVM_EXIT_INTR: u32 = 10;

pub const KVM_EXIT_SET_TPR: u32 = 11;

pub const KVM_EXIT_TPR_ACCESS: u32 = 12;

pub const KVM_EXIT_S390_SIEIC: u32 = 13;

pub const KVM_EXIT_S390_RESET: u32 = 14;

pub const KVM_EXIT_DCR: u32 = 15;

pub const KVM_EXIT_NMI: u32 = 16;

pub const KVM_EXIT_INTERNAL_ERROR: u32 = 17;

pub const KVM_EXIT_OSI: u32 = 18;

pub const KVM_EXIT_PAPR_HCALL: u32 = 19;

pub const KVM_EXIT_S390_UCONTROL: u32 = 20;

pub const KVM_EXIT_WATCHDOG: u32 = 21;

pub const KVM_EXIT_S390_TSCH: u32 = 22;

pub const KVM_EXIT_EPR: u32 = 23;

pub const KVM_EXIT_SYSTEM_EVENT: u32 = 24;

pub const KVM_EXIT_IOAPIC_EOI: u32 = 26;

pub const KVM_EXIT_HYPERV: u32 = 27;

/// Direction of a port I/O exit.
pub const KVM_EXIT_IO_IN: u32 = 0;

pub const KVM_EXIT_IO_OUT: u32 = 1;

/// Kind of a Hyper-V exit.
pub const KVM_EXIT_HYPERV_SYNIC: u32 = 1;

pub const KVM_EXIT_HYPERV_HCALL: u32 = 2;

/// Multiprocessor states.
pub const KVM_MP_STATE_RUNNABLE: u32 = 0;

pub const KVM_MP_STATE_UNINITIALIZED: u32 = 1;

pub const KVM_MP_STATE_INIT_RECEIVED: u32 = 2;

pub const KVM_MP_STATE_HALTED: u32 = 3;

pub const KVM_MP_STATE_SIPI_RECEIVED: u32 = 4;

pub const KVM_MP_STATE_STOPPED: u32 = 5;

/// Capability numbers.
pub const KVM_CAP_USER_MEMORY: u32 = 3;

pub const KVM_CAP_XCRS: u32 = 56;

pub const KVM_CAP_TSC_DEADLINE_TIMER: u32 = 72;

pub const KVM_CAP_KVMCLOCK_CTRL: u32 = 76;

pub const KVM_CAP_S390_USER_SIGP: u32 = 106;

pub const KVM_CAP_ARM_PMU_V3: u32 = 126;

pub const KVM_CAP_IMMEDIATE_EXIT: u32 = 136;

pub const KVM_CAP_ARM_PROTECTED_VM: u32 = 0xffbadab1;

/// Number of bytes of a signal set that the kernel reads from a signal mask
/// request.
pub const KVM_SIGNAL_MASK_LEN: u32 = 8;

/// The record of the "set user memory region" request.
#[derive(Clone, Copy, Debug, PartialEq, Eq, Structural)]
pub struct KvmUserspaceMemoryRegion {
    pub slot: u32,
    pub flags: u32,
    pub guest_phys_addr: u64,
    pub memory_size: u64,
    pub userspace_addr: u64,
}

/// The record of the "set interrupt line level" request.
#[derive(Clone, Copy, Debug, PartialEq, Eq, Structural)]
pub struct KvmIrqLevel {
    pub irq: u32,
    pub level: u32,
}

/// The record of the "bind an event to an interrupt" request.
#[derive(Clone, Copy, Debug, PartialEq, Eq, Structural)]
pub struct KvmIrqfd {
    pub fd: u32,
    pub gsi: u32,
    pub flags: u32,
    pub resamplefd: u32,
}

/// The record of the "bind an event to a guest write" request.
#[derive(Clone, Copy, Debug, PartialEq, Eq, Structural)]
pub struct KvmIoeventfd {
    pub datamatch: u64,
    pub addr: u64,
    pub len: u32,
    pub fd: i32,
    pub flags: u32,
}

/// The record of the "enable capability" request.
#[derive(Clone, Copy, Debug, PartialEq, Eq)]
pub struct KvmEnableCap {
    pub cap: u32,
    pub flags: u32,
    pub args: [u64; 4],
}

/// The record of the "create device" request.
#[derive(Clone, Copy, Debug, PartialEq, Eq, Structural)]
pub struct KvmCreateDevice {
    pub type_: u32,
    pub fd: u32,
    pub flags: u32,
}

/// The record of the "get dirty log" request, without the buffer address,
/// which the caller adds.
#[derive(Clone, Copy, Debug, PartialEq, Eq, Structural)]
pub struct KvmDirtyLog {
    pub slot: u32,
}

/// The record that carries a multiprocessor state to and from the kernel.
#[derive(Clone, Copy, Debug, PartialEq, Eq, Structural)]
pub struct KvmMpState {
    pub mp_state: u32,
}

/// What a routing entry delivers to.
#[derive(Clone, Copy, Debug, PartialEq, Eq, Structural)]
pub enum KvmIrqRoutingTarget {
    Irqchip { irqchip: u32, pin: u32 },
    Msi { address_lo: u32, address_hi: u32, data: u32 },
}

/// One entry of the interrupt routing table.
#[derive(Clone, Copy, Debug, PartialEq, Eq, Structural)]
pub struct KvmIrqRoutingEntry {
    pub gsi: u32,
    pub type_: u32,
    pub flags: u32,
    pub u: KvmIrqRoutingTarget,
}

/// The interrupt routing table as one request: the entry count and the
/// entries.
#[derive(Debug)]
pub struct KvmIrqRouting {
    pub nr: u32,
    pub flags: u32,
    pub entries: Vec<KvmIrqRoutingEntry>,
}

} // verus!

verus! {

/// The run-state page read under a port I/O exit.
#[derive(Clone, Copy, Debug, PartialEq, Eq, Structural)]
pub struct KvmRunIo {
    pub direction: u8,
    pub size: u8,
    pub port: u16,
    pub count: u32,
    pub data_offset: u64,
}

/// The run-state page read under a memory-mapped I/O exit.
#[derive(Clone, Copy, Debug, PartialEq, Eq)]
pub struct KvmRunMmio {
    pub phys_addr: u64,
    pub data: [u8; 8],
    pub len: u32,
    pub is_write: u8,
}

/// The synthetic interrupt controller part of a Hyper-V exit.
#[derive(Clone, Copy, Debug, PartialEq, Eq, Structural)]
pub struct KvmHypervSynic {
    pub msr: u32,
    pub control: u64,
    pub evt_page: u64,
    pub msg_page: u64,
}

/// The hypercall part of a Hyper-V exit.
#[derive(Clone, Copy, Debug, PartialEq, Eq)]
pub struct KvmHypervHcall {
    pub input: u64,
    pub result: u64,
    pub params: [u64; 2],
}

/// The run-state page read under a Hyper-V exit.
#[derive(Clone, Copy, Debug, PartialEq, Eq)]
pub struct KvmRunHyperv {
    pub type_: u32,
    pub synic: KvmHypervSynic,
    pub hcall: KvmHypervHcall,
}

/// The run-state page read under a system event exit.
#[derive(Clone, Copy, Debug, PartialEq, Eq, Structural)]
pub struct KvmRunSystemEvent {
    pub type_: u32,
    pub flags: u64,
}

/// A reading of the run-state page that a virtual CPU shares with the
/// kernel. The kernel overlays the exit-specific parts in one area; each
/// field below is the reading of that area under one exit reason, and only
/// the one that `exit_reason` selects means anything.
#[derive(Clone, Copy, Debug, PartialEq, Eq)]
pub struct KvmRun {
    pub immediate_exit: u8,
    pub exit_reason: u32,
    pub io: KvmRunIo,
    pub mmio: KvmRunMmio,
    pub eoi_vector: u8,
    pub hyperv: KvmRunHyperv,
    pub hardware_entry_failure_reason: u64,
    pub system_event: KvmRunSystemEvent,
}

} // verus!
