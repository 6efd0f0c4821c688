use hypervisor::abi::{
    KvmIoeventfd, KvmIrqLevel, KvmIrqRoutingEntry, KvmIrqRoutingTarget, KvmIrqfd, KvmMpState,
};
use hypervisor::errno::Error;
use hypervisor::ioevent::{Datamatch, IoEventAddress};
use hypervisor::irq::{chip_to_kvm_chip, descriptor_as_u32, IrqRoute, IrqSource, IrqSourceChip};
use hypervisor::irqchip::{IrqChipCap, KvmKernelIrqChip, VcpuRunState};
use hypervisor::kvm::{CapabilityAnswer, HypervisorCap, Kvm, KvmCap, VmCap};
use hypervisor::memory::{GuestAddress, GuestMemory, GuestMemoryRegion};
use hypervisor::vcpu::{KvmVcpu, MPState};
use hypervisor::vm::KvmVm;

fn irq_test_vm() -> KvmVm {
    let gm = GuestMemory::new(vec![GuestMemoryRegion {
        guest_base: GuestAddress(0),
        size: 0x10000,
        host_addr: 0x7f00_0000_0000,
    }])
    .unwrap();
    KvmVm::new(gm, 4096)
}

fn irq_pin_route(gsi: u32, chip: IrqSourceChip, pin: u32) -> IrqRoute {
    IrqRoute {
        gsi,
        source: IrqSource::Irqchip { chip, pin },
    }
}

#[test]
fn check_capability() {
    let kvm = Kvm::new_with_path(3, 0).unwrap();
    // The kernel answers one for an extension it has and zero for one it
    // lacks.
    assert!(kvm.check_capability(&HypervisorCap::UserMemory, 1));
    assert!(!kvm.check_capability(&HypervisorCap::S390UserSigp, 0));
    assert!(!kvm.check_capability(&HypervisorCap::UserMemory, 2));
    assert!(!kvm.check_capability(&HypervisorCap::UserMemory, -1));
}

#[test]
fn check_vm_capability() {
    let vm = irq_test_vm();
    assert!(vm.check_raw_capability(KvmCap::UserMemory, 1));
    assert!(!vm.check_raw_capability(KvmCap::S390UserSigp, 0));
}

#[test]
fn capability_numbers() {
    assert_eq!(KvmCap::try_from(&HypervisorCap::UserMemory).unwrap(), KvmCap::UserMemory);
    assert_eq!(KvmCap::try_from(&HypervisorCap::ArmPmuV3).unwrap(), KvmCap::ArmPmuV3);
    assert_eq!(KvmCap::try_from(&HypervisorCap::Xcrs).unwrap(), KvmCap::Xcrs);
    assert_eq!(KvmCap::UserMemory.as_u32(), 3);
    assert_eq!(KvmCap::Xcrs.as_u32(), 56);
    assert_eq!(KvmCap::TscDeadlineTimer.as_u32(), 72);
    assert_eq!(KvmCap::KvmclockCtrl.as_u32(), 76);
    assert_eq!(KvmCap::S390UserSigp.as_u32(), 106);
    assert_eq!(KvmCap::ArmPmuV3.as_u32(), 126);
    assert_eq!(KvmCap::ImmediateExit.as_u32(), 136);
    assert_eq!(KvmCap::ArmProtectedVm.as_u32(), 0xffbadab1);
}

#[test]
fn vm_capabilities() {
    let vm = irq_test_vm();
    assert_eq!(vm.check_capability(VmCap::DirtyLog), CapabilityAnswer::Known(true));
    assert_eq!(vm.check_capability(VmCap::PvClock), CapabilityAnswer::Known(true));
    assert_eq!(
        vm.check_capability(VmCap::PvClockSuspend),
        CapabilityAnswer::AskKernel(KvmCap::KvmclockCtrl)
    );
    assert_eq!(
        vm.check_capability(VmCap::Protected),
        CapabilityAnswer::AskKernel(KvmCap::ArmProtectedVm)
    );
    assert_eq!(vm.check_capability_arch(VmCap::PvClock), Some(true));
    assert_eq!(vm.check_capability_arch(VmCap::DirtyLog), None);
    assert_eq!(vm.check_capability_arch(VmCap::PvClockSuspend), None);
    assert_eq!(vm.check_capability_arch(VmCap::Protected), None);
}

#[test]
fn vm_enable_capability_request() {
    let vm = irq_test_vm();
    let request = vm.enable_raw_capability(KvmCap::ArmProtectedVm, 5, &[9, 8, 7, 6]);
    assert_eq!(request.cap, 0xffbadab1);
    assert_eq!(request.flags, 5);
    assert_eq!(request.args, [9, 8, 7, 6]);
}

#[test]
fn create_irq_chip_results() {
    let vm = irq_test_vm();
    assert!(vm.create_irq_chip(0, 0).is_ok());
    assert_eq!(vm.create_irq_chip(-1, libc::EEXIST).unwrap_err().errno(), libc::EEXIST);
    assert_eq!(vm.create_irq_chip(1, libc::EINVAL).unwrap_err().errno(), libc::EINVAL);
}

#[test]
fn set_irq_line_levels() {
    let vm = irq_test_vm();
    assert_eq!(vm.set_irq_line(4, true), KvmIrqLevel { irq: 4, level: 1 });
    assert_eq!(vm.set_irq_line(9, false), KvmIrqLevel { irq: 9, level: 0 });
}

#[test]
fn register_irqfd() {
    let vm = irq_test_vm();
    let (evtfd1, evtfd2, evtfd3) = (10, 11, 12);
    assert!(vm.create_irq_chip(0, 0).is_ok());
    assert_eq!(
        vm.register_irqfd(4, evtfd1, None),
        KvmIrqfd { fd: 10, gsi: 4, flags: 0, resamplefd: 0 }
    );
    assert_eq!(
        vm.register_irqfd(8, evtfd2, None),
        KvmIrqfd { fd: 11, gsi: 8, flags: 0, resamplefd: 0 }
    );
    assert_eq!(
        vm.register_irqfd(4, evtfd3, None),
        KvmIrqfd { fd: 12, gsi: 4, flags: 0, resamplefd: 0 }
    );
    // Asking twice is asking the kernel twice: the request is the same.
    assert_eq!(vm.register_irqfd(4, evtfd3, None), vm.register_irqfd(4, evtfd3, None));
}

#[test]
fn unregister_irqfd() {
    let vm = irq_test_vm();
    let (evtfd1, evtfd2, evtfd3) = (10, 11, 12);
    assert_eq!(
        vm.unregister_irqfd(4, evtfd1),
        KvmIrqfd { fd: 10, gsi: 4, flags: 1, resamplefd: 0 }
    );
    assert_eq!(
        vm.unregister_irqfd(8, evtfd2),
        KvmIrqfd { fd: 11, gsi: 8, flags: 1, resamplefd: 0 }
    );
    assert_eq!(
        vm.unregister_irqfd(4, evtfd3),
        KvmIrqfd { fd: 12, gsi: 4, flags: 1, resamplefd: 0 }
    );
}

#[test]
fn irqfd_resample() {
    let vm = irq_test_vm();
    let (evtfd1, evtfd2) = (10, 11);
    assert_eq!(
        vm.register_irqfd(4, evtfd1, Some(evtfd2)),
        KvmIrqfd { fd: 10, gsi: 4, flags: 2, resamplefd: 11 }
    );
    assert_eq!(
        vm.unregister_irqfd(4, evtfd1),
        KvmIrqfd { fd: 10, gsi: 4, flags: 1, resamplefd: 0 }
    );
    // The request carries the resample descriptor as it is, a bad one too,
    // for the kernel to refuse.
    assert_eq!(
        vm.register_irqfd(4, evtfd1, Some(-1)),
        KvmIrqfd { fd: 10, gsi: 4, flags: 2, resamplefd: 0xffff_ffff }
    );
}

#[test]
fn descriptor_bits() {
    assert_eq!(descriptor_as_u32(0), 0);
    assert_eq!(descriptor_as_u32(7), 7);
    assert_eq!(descriptor_as_u32(i32::MAX), 0x7fff_ffff);
    assert_eq!(descriptor_as_u32(-1), 0xffff_ffff);
    assert_eq!(descriptor_as_u32(-2), 0xffff_fffe);
    assert_eq!(descriptor_as_u32(i32::MIN), 0x8000_0000);
}

#[test]
fn register_ioevent() {
    let vm = irq_test_vm();
    let evtfd = 20;
    assert_eq!(
        vm.register_ioevent(evtfd, IoEventAddress::Pio(0xf4), Datamatch::AnyLength),
        KvmIoeventfd { datamatch: 0, addr: 0xf4, len: 0, fd: 20, flags: 2 }
    );
    assert_eq!(
        vm.register_ioevent(evtfd, IoEventAddress::Mmio(0x1000), Datamatch::AnyLength),
        KvmIoeventfd { datamatch: 0, addr: 0x1000, len: 0, fd: 20, flags: 0 }
    );
    assert_eq!(
        vm.register_ioevent(evtfd, IoEventAddress::Pio(0xc1), Datamatch::U8(Some(0x7fu8))),
        KvmIoeventfd { datamatch: 0x7f, addr: 0xc1, len: 1, fd: 20, flags: 3 }
    );
    assert_eq!(
        vm.register_ioevent(evtfd, IoEventAddress::Pio(0xc2), Datamatch::U16(Some(0x1337u16))),
        KvmIoeventfd { datamatch: 0x1337, addr: 0xc2, len: 2, fd: 20, flags: 3 }
    );
    assert_eq!(
        vm.register_ioevent(
            evtfd,
            IoEventAddress::Pio(0xc4),
            Datamatch::U32(Some(0xdeadbeefu32))
        ),
        KvmIoeventfd { datamatch: 0xdeadbeef, addr: 0xc4, len: 4, fd: 20, flags: 3 }
    );
    assert_eq!(
        vm.register_ioevent(
            evtfd,
            IoEventAddress::Pio(0xc8),
            Datamatch::U64(Some(0xdeadbeefdeadbeefu64))
        ),
        KvmIoeventfd { datamatch: 0xdeadbeefdeadbeef, addr: 0xc8, len: 8, fd: 20, flags: 3 }
    );
}

#[test]
fn unregister_ioevent() {
    let vm = irq_test_vm();
    let evtfd = 20;
    assert_eq!(
        vm.unregister_ioevent(evtfd, IoEventAddress::Pio(0xf4), Datamatch::AnyLength),
        KvmIoeventfd { datamatch: 0, addr: 0xf4, len: 0, fd: 20, flags: 6 }
    );
    assert_eq!(
        vm.unregister_ioevent(evtfd, IoEventAddress::Mmio(0x1000), Datamatch::AnyLength),
        KvmIoeventfd { datamatch: 0, addr: 0x1000, len: 0, fd: 20, flags: 4 }
    );
    assert_eq!(
        vm.unregister_ioevent(evtfd, IoEventAddress::Mmio(0x1004), Datamatch::U8(Some(0x7fu8))),
        KvmIoeventfd { datamatch: 0x7f, addr: 0x1004, len: 1, fd: 20, flags: 5 }
    );
}

#[test]
fn ioevent_widths_without_a_value() {
    let vm = irq_test_vm();
    let request = |d: Datamatch| vm.ioeventfd(1, IoEventAddress::Mmio(0), d, false);
    assert_eq!(request(Datamatch::U8(None)).len, 1);
    assert_eq!(request(Datamatch::U16(None)).len, 2);
    assert_eq!(request(Datamatch::U32(None)).len, 4);
    assert_eq!(request(Datamatch::U64(None)).len, 8);
    assert_eq!(request(Datamatch::U64(None)).flags, 0);
    assert_eq!(request(Datamatch::U64(None)).datamatch, 0);
    assert!(vm.handle_io_events(IoEventAddress::Pio(1), &[1, 2]).is_ok());
}

#[test]
fn routing_entries() {
    assert_eq!(chip_to_kvm_chip(IrqSourceChip::PicPrimary), 0);
    assert_eq!(chip_to_kvm_chip(IrqSourceChip::PicSecondary), 1);
    assert_eq!(chip_to_kvm_chip(IrqSourceChip::Ioapic), 2);
    assert_eq!(chip_to_kvm_chip(IrqSourceChip::Gic), 0);
    assert_eq!(
        KvmIrqRoutingEntry::from(&irq_pin_route(5, IrqSourceChip::Ioapic, 7)),
        KvmIrqRoutingEntry {
            gsi: 5,
            type_: 1,
            flags: 0,
            u: KvmIrqRoutingTarget::Irqchip { irqchip: 2, pin: 7 },
        }
    );
    let msi = IrqRoute {
        gsi: 30,
        source: IrqSource::Msi {
            address: 0x1234_5678_fee0_1000,
            data: 0x4041,
        },
    };
    assert_eq!(
        KvmIrqRoutingEntry::from(&msi),
        KvmIrqRoutingEntry {
            gsi: 30,
            type_: 2,
            flags: 0,
            u: KvmIrqRoutingTarget::Msi {
                address_lo: 0xfee0_1000,
                address_hi: 0x1234_5678,
                data: 0x4041,
            },
        }
    );
}

#[test]
fn set_gsi_routing_marshals_every_route() {
    let vm = irq_test_vm();
    let routes = [
        irq_pin_route(0, IrqSourceChip::PicPrimary, 0),
        irq_pin_route(0, IrqSourceChip::Ioapic, 2),
        irq_pin_route(8, IrqSourceChip::PicSecondary, 0),
    ];
    let request = vm.set_gsi_routing(&routes);
    assert_eq!(request.nr, 3);
    assert_eq!(request.flags, 0);
    assert_eq!(request.entries.len(), 3);
    for (entry, route) in request.entries.iter().zip(routes.iter()) {
        assert_eq!(*entry, KvmIrqRoutingEntry::from(route));
    }
    let empty = vm.set_gsi_routing(&[]);
    assert_eq!(empty.nr, 0);
    assert!(empty.entries.is_empty());
}

#[test]
fn create_kvm_kernel_irqchip() {
    let vm = irq_test_vm();
    let mut chip = KvmKernelIrqChip::new(1, Vec::new());
    let vcpu = vm.create_vcpu(0, 5, 0, true).expect("failed to instantiate vcpu");
    chip.add_vcpu(0, &vcpu).expect("failed to add vcpu");
}

#[test]
fn add_vcpu_out_of_range() {
    let mut chip = KvmKernelIrqChip::new(2, Vec::new());
    let vcpu = KvmVcpu::new(2);
    assert_eq!(chip.add_vcpu(2, &vcpu).unwrap_err().errno(), libc::ENOENT);
    assert_eq!(chip.vcpu_index(0), None);
    assert_eq!(chip.vcpu_index(1), None);
    assert_eq!(chip.vcpu_index(2), None);
    assert!(chip.add_vcpu(1, &vcpu).is_ok());
}

#[test]
fn add_vcpu_keeps_a_record_of_the_vcpu_given() {
    let mut chip = KvmKernelIrqChip::new(3, Vec::new());
    chip.add_vcpu(1, &KvmVcpu::new(7)).unwrap();
    assert_eq!(chip.vcpu_index(0), None);
    assert_eq!(chip.vcpu_index(1), Some(7));
    assert_eq!(chip.vcpu_index(2), None);
    chip.add_vcpu(2, &KvmVcpu::new(9)).unwrap();
    assert_eq!(chip.vcpu_index(1), Some(7));
    assert_eq!(chip.vcpu_index(2), Some(9));
    // A second virtual CPU under the same number replaces the first.
    chip.add_vcpu(1, &KvmVcpu::new(4)).unwrap();
    assert_eq!(chip.vcpu_index(1), Some(4));
    assert_eq!(chip.vcpu_index(2), Some(9));
    assert_eq!(chip.vcpu_index(3), None);
}

#[test]
fn add_vcpu_keeps_a_record_with_a_handle_of_its_own() {
    let mut vcpu = KvmVcpu::new(0);
    let mut thread = None;
    let handle = vcpu.take_run_handle(None, 1, &mut thread).unwrap();
    let mut chip = KvmKernelIrqChip::new(1, Vec::new());
    chip.add_vcpu(0, &vcpu).unwrap();
    assert_eq!(chip.vcpu_index(0), Some(0));
    // The virtual CPU given is as it was.
    assert!(vcpu.owns_run_handle(&handle));
}

#[test]
fn mp_state() {
    let vm = irq_test_vm();
    let mut chip = KvmKernelIrqChip::new(1, Vec::new());
    let vcpu = vm.create_vcpu(0, 5, 0, true).expect("failed to instantiate vcpu");
    chip.add_vcpu(0, &vcpu).expect("failed to add vcpu");

    // A virtual CPU starts out runnable in the kernel.
    let mut kernel_state = KvmMpState { mp_state: 0 };
    let state = chip
        .get_mp_state(0, Ok(kernel_state))
        .expect("failed to get mp state");
    assert_eq!(state, MPState::Runnable);

    kernel_state = chip
        .set_mp_state(0, &MPState::Stopped)
        .expect("failed to set mp state");

    let state = chip
        .get_mp_state(0, Ok(kernel_state))
        .expect("failed to get mp state");
    assert_eq!(state, MPState::Stopped);
}

#[test]
fn mp_state_of_a_vcpu_that_was_not_added() {
    let mut chip = KvmKernelIrqChip::new(2, Vec::new());
    let state = KvmMpState { mp_state: 3 };
    assert_eq!(chip.get_mp_state(0, Ok(state)).unwrap_err().errno(), libc::ENOENT);
    assert_eq!(chip.get_mp_state(5, Ok(state)).unwrap_err().errno(), libc::ENOENT);
    assert_eq!(
        chip.set_mp_state(1, &MPState::Halted).unwrap_err().errno(),
        libc::ENOENT
    );
    chip.add_vcpu(1, &KvmVcpu::new(1)).unwrap();
    assert_eq!(chip.get_mp_state(1, Ok(state)).unwrap(), MPState::Halted);
    assert_eq!(chip.get_mp_state(1, Ok(KvmMpState { mp_state: 77 })).unwrap(), MPState::Runnable);
    assert_eq!(
        chip.get_mp_state(1, Err(Error::new(libc::EINVAL))).unwrap_err().errno(),
        libc::EINVAL
    );
    assert_eq!(chip.set_mp_state(1, &MPState::Halted).unwrap(), KvmMpState { mp_state: 3 });
    assert_eq!(chip.get_mp_state(0, Ok(state)).unwrap_err().errno(), libc::ENOENT);
}

#[test]
fn route_irq_replaces_the_routes_of_the_line() {
    let mut chip = KvmKernelIrqChip::new(
        1,
        vec![
            irq_pin_route(0, IrqSourceChip::PicPrimary, 0),
            irq_pin_route(0, IrqSourceChip::Ioapic, 2),
            irq_pin_route(1, IrqSourceChip::PicPrimary, 1),
            irq_pin_route(1, IrqSourceChip::Ioapic, 1),
        ],
    );
    let msi = IrqRoute {
        gsi: 0,
        source: IrqSource::Msi { address: 0xfee0_0000, data: 0x21 },
    };
    let request = chip.route_irq(msi);
    assert_eq!(request.nr, 3);
    assert_eq!(
        request.entries,
        vec![
            KvmIrqRoutingEntry::from(&irq_pin_route(1, IrqSourceChip::PicPrimary, 1)),
            KvmIrqRoutingEntry::from(&irq_pin_route(1, IrqSourceChip::Ioapic, 1)),
            KvmIrqRoutingEntry::from(&msi),
        ]
    );
    // A line without a route gets one.
    let request = chip.route_irq(irq_pin_route(9, IrqSourceChip::Ioapic, 9));
    assert_eq!(request.nr, 4);
    assert_eq!(
        request.entries[3],
        KvmIrqRoutingEntry::from(&irq_pin_route(9, IrqSourceChip::Ioapic, 9))
    );
}

#[test]
fn set_irq_routes_replaces_the_table() {
    let mut chip = KvmKernelIrqChip::new(1, vec![irq_pin_route(0, IrqSourceChip::PicPrimary, 0)]);
    let routes = [
        irq_pin_route(3, IrqSourceChip::Ioapic, 3),
        irq_pin_route(4, IrqSourceChip::Ioapic, 4),
    ];
    let request = chip.set_irq_routes(&routes);
    assert_eq!(request.nr, 2);
    assert_eq!(
        request.entries,
        vec![
            KvmIrqRoutingEntry::from(&routes[0]),
            KvmIrqRoutingEntry::from(&routes[1]),
        ]
    );
    let request = chip.route_irq(irq_pin_route(5, IrqSourceChip::Ioapic, 5));
    assert_eq!(request.nr, 3);
    let request = chip.set_irq_routes(&[]);
    assert_eq!(request.nr, 0);
}

#[test]
fn irq_events_are_left_to_the_kernel() {
    let mut chip = KvmKernelIrqChip::new(1, Vec::new());
    assert_eq!(
        chip.register_irq_event(4, 10, Some(11)),
        KvmIrqfd { fd: 10, gsi: 4, flags: 2, resamplefd: 11 }
    );
    assert_eq!(
        chip.register_irq_event(4, 10, None),
        KvmIrqfd { fd: 10, gsi: 4, flags: 0, resamplefd: 0 }
    );
    assert_eq!(chip.irq_event_registered(Ok(())).unwrap(), None);
    assert_eq!(
        chip.irq_event_registered(Err(Error::new(libc::EBUSY))).unwrap_err().errno(),
        libc::EBUSY
    );
    assert_eq!(
        chip.unregister_irq_event(4, 10),
        KvmIrqfd { fd: 10, gsi: 4, flags: 1, resamplefd: 0 }
    );
    assert!(chip.irq_event_tokens().unwrap().is_empty());
    assert_eq!(chip.service_irq(6, true), KvmIrqLevel { irq: 6, level: 1 });
    assert_eq!(chip.service_irq(6, false), KvmIrqLevel { irq: 6, level: 0 });
    assert!(chip.service_irq_event(0).is_ok());
    assert!(chip.broadcast_eoi(0x20).is_ok());
    let vcpu = KvmVcpu::new(0);
    assert!(chip.inject_interrupts(&vcpu).is_ok());
    assert_eq!(chip.wait_until_runnable(&vcpu).unwrap(), VcpuRunState::Runnable);
    chip.halted(0);
    chip.kick_halted_vcpus();
    assert!(chip.finalize_devices().is_ok());
    assert!(chip.process_delayed_irq_events().is_ok());
}

#[test]
fn irq_chip_capabilities() {
    let chip = KvmKernelIrqChip::new(1, Vec::new());
    assert!(chip.check_capability(IrqChipCap::X2Apic, false));
    assert!(chip.check_capability(IrqChipCap::X2Apic, true));
    assert!(chip.check_capability(IrqChipCap::TscDeadlineTimer, true));
    assert!(!chip.check_capability(IrqChipCap::TscDeadlineTimer, false));
    assert_eq!(
        KvmKernelIrqChip::capability_to_check(IrqChipCap::TscDeadlineTimer),
        Some(HypervisorCap::TscDeadlineTimer)
    );
    assert_eq!(KvmKernelIrqChip::capability_to_check(IrqChipCap::X2Apic), None);
}
