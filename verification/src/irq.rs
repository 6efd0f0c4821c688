//! Interrupt routing: which interrupt line leads where, and the requests
//! that tell the kernel so.

use vstd::prelude::*;
use crate::abi;
use crate::abi::{KvmIrqLevel, KvmIrqRouting, KvmIrqRoutingEntry, KvmIrqRoutingTarget, KvmIrqfd};
use crate::vm::KvmVm;

verus! {

/// An interrupt controller that a line can be routed to.
#[derive(Clone, Copy, Debug, PartialEq, Eq, Structural)]
pub enum IrqSourceChip {
    PicPrimary,
    PicSecondary,
    Ioapic,
    Gic,
}

/// Where an interrupt line delivers to.
#[derive(Clone, Copy, Debug, PartialEq, Eq, Structural)]
pub enum IrqSource {
    /// A pin of an in-kernel interrupt controller.
    Irqchip { chip: IrqSourceChip, pin: u32 },
    /// A message-signaled interrupt: a write of `data` to `address`.
    Msi { address: u64, data: u32 },
}

/// The route of one interrupt line.
#[derive(Clone, Copy, Debug, PartialEq, Eq, Structural)]
pub struct IrqRoute {
    pub gsi: u32,
    pub source: IrqSource,
}

/// The kernel's number of an interrupt controller. The one controller that
/// this architecture lacks goes by zero.
pub open spec fn kvm_chip(chip: IrqSourceChip) -> u32 {
    match chip {
        IrqSourceChip::PicPrimary => abi::KVM_IRQCHIP_PIC_MASTER,
        IrqSourceChip::PicSecondary => abi::KVM_IRQCHIP_PIC_SLAVE,
        IrqSourceChip::Ioapic => abi::KVM_IRQCHIP_IOAPIC,
        IrqSourceChip::Gic => 0,
    }
}

/// The routing table entry that stands for a route: the line, the kind of
/// target, and the target, a message's address split into its low and high
/// halves.
pub open spec fn routing_entry(route: IrqRoute) -> KvmIrqRoutingEntry {
    match route.source {
        IrqSource::Irqchip { chip, pin } => KvmIrqRoutingEntry {
            gsi: route.gsi,
            type_: abi::KVM_IRQ_ROUTING_IRQCHIP,
            flags: 0,
            u: KvmIrqRoutingTarget::Irqchip { irqchip: kvm_chip(chip), pin },
        },
        IrqSource::Msi { address, data } => KvmIrqRoutingEntry {
            gsi: route.gsi,
            type_: abi::KVM_IRQ_ROUTING_MSI,
            flags: 0,
            u: KvmIrqRoutingTarget::Msi {
                address_lo: (address % 0x1_0000_0000) as u32,
                address_hi: (address / 0x1_0000_0000) as u32,
                data,
            },
        },
    }
}

/// A descriptor number as the kernel takes it in an unsigned field: the same
/// bits.
pub open spec fn descriptor_bits(fd: i32) -> u32 {
    if fd >= 0 {
        fd as u32
    } else {
        (fd + 0x1_0000_0000) as u32
    }
}

/// The request that binds an event to an interrupt line, with a resample
/// event where one is given.
pub open spec fn irqfd_assign(gsi: u32, evt: i32, resample_evt: Option<i32>) -> KvmIrqfd {
    match resample_evt {
        Some(r_evt) => KvmIrqfd {
            fd: descriptor_bits(evt),
            gsi,
            flags: abi::KVM_IRQFD_FLAG_RESAMPLE,
            resamplefd: descriptor_bits(r_evt),
        },
        None => KvmIrqfd { fd: descriptor_bits(evt), gsi, flags: 0, resamplefd: 0 },
    }
}

/// The request that removes the binding of an event to an interrupt line.
pub open spec fn irqfd_deassign(gsi: u32, evt: i32) -> KvmIrqfd {
    KvmIrqfd {
        fd: descriptor_bits(evt),
        gsi,
        flags: abi::KVM_IRQFD_FLAG_DEASSIGN,
        resamplefd: 0,
    }
}

/// Returns the kernel's number of an interrupt controller.
pub fn chip_to_kvm_chip(chip: IrqSourceChip) -> (n: u32)
    ensures
        n == kvm_chip(chip),
{
    match chip {
        IrqSourceChip::PicPrimary => abi::KVM_IRQCHIP_PIC_MASTER,
        IrqSourceChip::PicSecondary => abi::KVM_IRQCHIP_PIC_SLAVE,
        IrqSourceChip::Ioapic => abi::KVM_IRQCHIP_IOAPIC,
        IrqSourceChip::Gic => 0,
    }
}

/// Returns a descriptor number as the kernel takes it in an unsigned field.
pub fn descriptor_as_u32(fd: i32) -> (bits: u32)
    ensures
        bits == descriptor_bits(fd),
{
    assert(fd < 0 ==> (fd as u32) == (fd + 0x1_0000_0000) as u32) by (bit_vector);
    #[verifier::truncate]
    (fd as u32)
}

impl KvmIrqRoutingEntry {
    /// The routing table entry that stands for `route`.
    pub fn from(route: &IrqRoute) -> (entry: KvmIrqRoutingEntry)
        ensures
            entry == routing_entry(*route),
    {
        match route.source {
            IrqSource::Irqchip { chip, pin } => KvmIrqRoutingEntry {
                gsi: route.gsi,
                type_: abi::KVM_IRQ_ROUTING_IRQCHIP,
                flags: 0,
                u: KvmIrqRoutingTarget::Irqchip { irqchip: chip_to_kvm_chip(chip), pin },
            },
            IrqSource::Msi { address, data } => {
                assert((address & 0xffff_ffff) == address % 0x1_0000_0000) by (bit_vector);
                assert((address >> 32) == address / 0x1_0000_0000) by (bit_vector);
                assert((address >> 32) <= 0xffff_ffff) by (bit_vector);
                KvmIrqRoutingEntry {
                    gsi: route.gsi,
                    type_: abi::KVM_IRQ_ROUTING_MSI,
                    flags: 0,
                    u: KvmIrqRoutingTarget::Msi {
                        address_lo: (address & 0xffff_ffff) as u32,
                        address_hi: (address >> 32) as u32,
                        data,
                    },
                }
            },
        }
    }
}

/// Whether `request` carries the routing table `routes` to the kernel: one
/// entry for each route, in their order, and their count.
pub open spec fn carries_routes(request: KvmIrqRouting, routes: Seq<IrqRoute>) -> bool {
    &&& request.nr == routes.len()
    &&& request.flags == 0
    &&& request.entries@.len() == routes.len()
    &&& forall|i: int|
        0 <= i < routes.len() ==> #[trigger] request.entries@[i] == routing_entry(routes[i])
}

/// Builds the request that sets the level of an interrupt line: one where
/// `active`, zero where not.
pub fn irq_level(irq: u32, active: bool) -> (request: KvmIrqLevel)
    ensures
        request == (KvmIrqLevel { irq, level: if active { 1u32 } else { 0u32 } }),
{
    KvmIrqLevel { irq, level: if active { 1 } else { 0 } }
}

/// Builds the request that binds an event to an interrupt line.
pub fn assign_irqfd(gsi: u32, evt: i32, resample_evt: Option<i32>) -> (request: KvmIrqfd)
    ensures
        request == irqfd_assign(gsi, evt, resample_evt),
{
    match resample_evt {
        Some(r_evt) => KvmIrqfd {
            fd: descriptor_as_u32(evt),
            gsi,
            flags: abi::KVM_IRQFD_FLAG_RESAMPLE,
            resamplefd: descriptor_as_u32(r_evt),
        },
        None => KvmIrqfd { fd: descriptor_as_u32(evt), gsi, flags: 0, resamplefd: 0 },
    }
}

/// Builds the request that removes the binding of an event to an interrupt
/// line.
pub fn deassign_irqfd(gsi: u32, evt: i32) -> (request: KvmIrqfd)
    ensures
        request == irqfd_deassign(gsi, evt),
{
    KvmIrqfd {
        fd: descriptor_as_u32(evt),
        gsi,
        flags: abi::KVM_IRQFD_FLAG_DEASSIGN,
        resamplefd: 0,
    }
}

/// Builds the request that carries a routing table to the kernel.
pub fn gsi_routing(routes: &[IrqRoute]) -> (request: KvmIrqRouting)
    requires
        routes@.len() <= u32::MAX,
    ensures
        carries_routes(request, routes@),
{
    let n: usize = routes.len();
    let mut entries: Vec<KvmIrqRoutingEntry> = Vec::new();
    let mut i: usize = 0;
    while i < n
        invariant
            i <= n,
            n == routes@.len(),
            entries@.len() == i,
            forall|k: int| 0 <= k < i ==> #[trigger] entries@[k] == routing_entry(routes@[k]),
        decreases n - i,
    {
        entries.push(KvmIrqRoutingEntry::from(&routes[i]));
        i += 1;
    }
    KvmIrqRouting { nr: n as u32, flags: 0, entries }
}

impl KvmVm {
    /// The request that sets the level of the interrupt line `irq`: one
    /// where `active`, zero where not.
    pub fn set_irq_line(&self, irq: u32, active: bool) -> (request: KvmIrqLevel)
        ensures
            request == (KvmIrqLevel { irq, level: if active { 1u32 } else { 0u32 } }),
    {
        irq_level(irq, active)
    }

    /// The request that makes the event `evt` trigger the interrupt line
    /// `gsi`, and `resample_evt`, where given, fire when the interrupt
    /// controller is resampled. Events go by their descriptor numbers.
    pub fn register_irqfd(&self, gsi: u32, evt: i32, resample_evt: Option<i32>) -> (request:
        KvmIrqfd)
        ensures
            request == irqfd_assign(gsi, evt, resample_evt),
    {
        assign_irqfd(gsi, evt, resample_evt)
    }

    /// The request that takes back what `register_irqfd` set up for the
    /// same line and event.
    pub fn unregister_irqfd(&self, gsi: u32, evt: i32) -> (request: KvmIrqfd)
        ensures
            request == irqfd_deassign(gsi, evt),
    {
        deassign_irqfd(gsi, evt)
    }

    /// The request that replaces the kernel's routing table by `routes`:
    /// one entry for each route, in their order, and their count.
    pub fn set_gsi_routing(&self, routes: &[IrqRoute]) -> (request: KvmIrqRouting)
        requires
            routes@.len() <= u32::MAX,
        ensures
            carries_routes(request, routes@),
    {
        gsi_routing(routes)
    }
}

} // verus!
