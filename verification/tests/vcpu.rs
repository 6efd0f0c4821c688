use hypervisor::abi::{
    KvmHypervHcall, KvmHypervSynic, KvmMpState, KvmRun, KvmRunHyperv, KvmRunIo, KvmRunMmio,
    KvmRunSystemEvent, KVM_EXIT_DEBUG, KVM_EXIT_FAIL_ENTRY, KVM_EXIT_HLT, KVM_EXIT_HYPERV,
    KVM_EXIT_INTR, KVM_EXIT_IO, KVM_EXIT_IOAPIC_EOI, KVM_EXIT_MMIO, KVM_EXIT_SHUTDOWN,
    KVM_EXIT_SYSTEM_EVENT, KVM_EXIT_UNKNOWN,
};
use hypervisor::errno::Error;
use hypervisor::kvm::Kvm;
use hypervisor::memory::{GuestAddress, GuestMemory, GuestMemoryRegion};
use hypervisor::vcpu::{
    classify_exit, is_io_data_in_page, is_known_exit_reason, is_run_page_complete, KvmVcpu,
    MPState, RunPageUpdate, VcpuExit, VcpuThread,
};
use hypervisor::vm::KvmVm;

fn vcpu_blank_run() -> KvmRun {
    KvmRun {
        immediate_exit: 0,
        exit_reason: KVM_EXIT_UNKNOWN,
        io: KvmRunIo {
            direction: 0,
            size: 0,
            port: 0,
            count: 0,
            data_offset: 0,
        },
        mmio: KvmRunMmio {
            phys_addr: 0,
            data: [0; 8],
            len: 0,
            is_write: 0,
        },
        eoi_vector: 0,
        hyperv: KvmRunHyperv {
            type_: 0,
            synic: KvmHypervSynic {
                msr: 0,
                control: 0,
                evt_page: 0,
                msg_page: 0,
            },
            hcall: KvmHypervHcall {
                input: 0,
                result: 0,
                params: [0; 2],
            },
        },
        hardware_entry_failure_reason: 0,
        system_event: KvmRunSystemEvent { type_: 0, flags: 0 },
    }
}

fn vcpu_page() -> Vec<u8> {
    (0..8192u32).map(|i| (i % 251) as u8).collect()
}

fn vcpu_test_vm() -> KvmVm {
    let gm = GuestMemory::new(vec![GuestMemoryRegion {
        guest_base: GuestAddress(0),
        size: 0x10000,
        host_addr: 0x7f00_0000_0000,
    }])
    .unwrap();
    KvmVm::new(gm, 4096)
}

#[test]
fn new() {
    let kvm = Kvm::new_with_path(3, 0).unwrap();
    assert_eq!(kvm.as_raw_descriptor(), 3);
}

#[test]
fn new_fails_with_the_error_of_the_open() {
    assert_eq!(Kvm::new_with_path(-1, libc::ENOENT).unwrap_err().errno(), libc::ENOENT);
    assert_eq!(Kvm::new_with_path(-1, libc::EACCES).unwrap_err().errno(), libc::EACCES);
    assert!(Kvm::new_with_path(0, libc::EACCES).is_ok());
}

#[test]
fn vcpu_mmap_size() {
    let kvm = Kvm::new_with_path(3, 0).unwrap();
    let page_size = 4096;
    let mmap_size = kvm.get_vcpu_mmap_size(3 * 4096, 0).unwrap();
    assert!(mmap_size >= page_size);
    assert!(mmap_size % page_size == 0);
    assert_eq!(mmap_size, 12288);
    assert_eq!(kvm.get_vcpu_mmap_size(0, libc::EINVAL).unwrap_err().errno(), libc::EINVAL);
    assert_eq!(kvm.get_vcpu_mmap_size(-1, libc::EBADF).unwrap_err().errno(), libc::EBADF);
}

#[test]
fn create_vcpu() {
    let vm = vcpu_test_vm();
    let vcpu = vm.create_vcpu(0, 5, 0, true).unwrap();
    assert_eq!(vcpu.id(), 0);
    assert_eq!(vm.create_vcpu(1, -1, libc::EEXIST, true).unwrap_err().errno(), libc::EEXIST);
    assert_eq!(vm.create_vcpu(1, 6, 0, false).unwrap_err().errno(), libc::ENOSPC);
}

#[test]
fn take_run_handle_twice_is_busy_until_release() {
    let mut vcpu = KvmVcpu::new(0);
    let mut thread = None;
    let handle = vcpu.take_run_handle(Some(34), 1, &mut thread).unwrap();
    assert_eq!(handle.as_u64(), 1);
    assert_eq!(thread, Some(VcpuThread { signal_num: Some(34) }));
    assert!(vcpu.owns_run_handle(&handle));

    // A second taker, on another thread, is turned away.
    let mut other_thread = None;
    let err = vcpu.take_run_handle(None, 2, &mut other_thread).unwrap_err();
    assert_eq!(err.errno(), libc::EBUSY);
    assert_eq!(other_thread, None);
    assert!(vcpu.owns_run_handle(&handle));

    assert_eq!(vcpu.release_run_handle(handle, &mut thread), Some(34));
    assert_eq!(thread, None);

    let handle = vcpu.take_run_handle(None, 3, &mut other_thread).unwrap();
    assert_eq!(handle.as_u64(), 3);
    assert_eq!(other_thread, Some(VcpuThread { signal_num: None }));
}

#[test]
fn take_run_handle_twice_on_one_thread() {
    let mut vcpu = KvmVcpu::new(0);
    let mut thread = None;
    let handle = vcpu.take_run_handle(None, 1, &mut thread).unwrap();
    let err = vcpu.take_run_handle(None, 2, &mut thread).unwrap_err();
    assert_eq!(err.errno(), libc::EBUSY);
    assert!(vcpu.owns_run_handle(&handle));
    assert_eq!(thread, Some(VcpuThread { signal_num: None }));
    assert_eq!(vcpu.release_run_handle(handle, &mut thread), None);
    let handle = vcpu.take_run_handle(Some(35), 3, &mut thread).unwrap();
    assert!(vcpu.owns_run_handle(&handle));
    assert_eq!(thread, Some(VcpuThread { signal_num: Some(35) }));
}

#[test]
fn a_thread_runs_one_vcpu_at_a_time() {
    let mut first = KvmVcpu::new(0);
    let mut second = KvmVcpu::new(1);
    let mut thread = None;
    let handle = first.take_run_handle(None, 1, &mut thread).unwrap();
    let err = second.take_run_handle(None, 2, &mut thread).unwrap_err();
    assert_eq!(err.errno(), libc::EBUSY);
    assert_eq!(thread, Some(VcpuThread { signal_num: None }));
    assert!(first.owns_run_handle(&handle));
}

#[test]
fn a_failed_take_leaves_the_vcpu_free() {
    let mut first = KvmVcpu::new(0);
    let mut second = KvmVcpu::new(1);
    let mut busy_thread = None;
    let handle = first.take_run_handle(Some(34), 1, &mut busy_thread).unwrap();
    // The thread runs the first virtual CPU, so it cannot take the second.
    let err = second.take_run_handle(None, 2, &mut busy_thread).unwrap_err();
    assert_eq!(err.errno(), libc::EBUSY);
    assert_eq!(busy_thread, Some(VcpuThread { signal_num: Some(34) }));
    // The second is still free: a thread that runs none takes it.
    let mut free_thread = None;
    let other = second.take_run_handle(None, 3, &mut free_thread).unwrap();
    assert_eq!(other.as_u64(), 3);
    assert!(second.owns_run_handle(&other));
    assert!(!second.owns_run_handle(&handle));
    // And the busy thread takes it once it gave both back.
    assert_eq!(second.release_run_handle(other, &mut free_thread), None);
    assert_eq!(first.release_run_handle(handle, &mut busy_thread), Some(34));
    let again = second.take_run_handle(None, 4, &mut busy_thread).unwrap();
    assert!(second.owns_run_handle(&again));
}

#[test]
fn no_handle_runs_a_free_vcpu() {
    let mut vcpu = KvmVcpu::new(0);
    let mut other = KvmVcpu::new(1);
    let mut thread = None;
    let handle = other.take_run_handle(None, 5, &mut thread).unwrap();
    assert!(!vcpu.owns_run_handle(&handle));
    assert_eq!(other.release_run_handle(handle, &mut thread), None);
    let handle = vcpu.take_run_handle(None, 6, &mut thread).unwrap();
    assert!(vcpu.owns_run_handle(&handle));
    assert!(!other.owns_run_handle(&handle));
}

#[test]
fn a_clone_has_a_run_handle_of_its_own() {
    let mut vcpu = KvmVcpu::new(3);
    let mut thread = None;
    let handle = vcpu.take_run_handle(None, 1, &mut thread).unwrap();
    let mut clone = vcpu.try_clone();
    assert_eq!(clone.id(), 3);
    assert!(!clone.owns_run_handle(&handle));
    let mut other_thread = None;
    let other = clone.take_run_handle(None, 2, &mut other_thread).unwrap();
    assert!(clone.owns_run_handle(&other));
    assert!(!vcpu.owns_run_handle(&other));
}

#[test]
fn releasing_a_foreign_handle_leaves_the_vcpu_bound() {
    let mut first = KvmVcpu::new(0);
    let mut second = KvmVcpu::new(1);
    let mut thread_a = None;
    let mut thread_b = None;
    let handle_a = first.take_run_handle(None, 1, &mut thread_a).unwrap();
    let handle_b = second.take_run_handle(Some(40), 2, &mut thread_b).unwrap();
    assert!(!first.owns_run_handle(&handle_b));
    assert_eq!(first.release_run_handle(handle_b, &mut thread_b), Some(40));
    assert!(first.owns_run_handle(&handle_a));
    assert_eq!(thread_b, None);
}

#[test]
fn run_returns_the_error_of_the_kernel() {
    let mut vcpu = KvmVcpu::new(0);
    let mut thread = None;
    let handle = vcpu.take_run_handle(None, 9, &mut thread).unwrap();
    let run = vcpu_blank_run();
    let page = vcpu_page();
    let err = vcpu
        .run(&handle, Err(Error::new(libc::EINTR)), &run, &page)
        .unwrap_err();
    assert_eq!(err.errno(), libc::EINTR);
}

#[test]
fn run_classifies_plain_exits() {
    let mut vcpu = KvmVcpu::new(0);
    let mut thread = None;
    let handle = vcpu.take_run_handle(None, 9, &mut thread).unwrap();
    let page = vcpu_page();
    let mut run = vcpu_blank_run();
    let mut exit_of = |reason: u32| {
        run.exit_reason = reason;
        vcpu.run(&handle, Ok(()), &run, &page).unwrap()
    };
    assert_eq!(exit_of(KVM_EXIT_UNKNOWN), VcpuExit::Unknown);
    assert_eq!(exit_of(1), VcpuExit::Exception);
    assert_eq!(exit_of(3), VcpuExit::Hypercall);
    assert_eq!(exit_of(KVM_EXIT_DEBUG), VcpuExit::Debug);
    assert_eq!(exit_of(KVM_EXIT_HLT), VcpuExit::Hlt);
    assert_eq!(exit_of(7), VcpuExit::IrqWindowOpen);
    assert_eq!(exit_of(KVM_EXIT_SHUTDOWN), VcpuExit::Shutdown);
    assert_eq!(exit_of(KVM_EXIT_INTR), VcpuExit::Intr);
    assert_eq!(exit_of(11), VcpuExit::SetTpr);
    assert_eq!(exit_of(12), VcpuExit::TprAccess);
    assert_eq!(exit_of(13), VcpuExit::S390Sieic);
    assert_eq!(exit_of(14), VcpuExit::S390Reset);
    assert_eq!(exit_of(15), VcpuExit::Dcr);
    assert_eq!(exit_of(16), VcpuExit::Nmi);
    assert_eq!(exit_of(17), VcpuExit::InternalError);
    assert_eq!(exit_of(18), VcpuExit::Osi);
    assert_eq!(exit_of(19), VcpuExit::PaprHcall);
    assert_eq!(exit_of(20), VcpuExit::S390Ucontrol);
    assert_eq!(exit_of(21), VcpuExit::Watchdog);
    assert_eq!(exit_of(22), VcpuExit::S390Tsch);
    assert_eq!(exit_of(23), VcpuExit::Epr);
}

#[test]
fn known_exit_reasons() {
    for reason in 0..=24u32 {
        assert!(is_known_exit_reason(reason));
    }
    assert!(!is_known_exit_reason(25));
    assert!(is_known_exit_reason(KVM_EXIT_IOAPIC_EOI));
    assert!(is_known_exit_reason(KVM_EXIT_HYPERV));
    assert!(!is_known_exit_reason(28));
    assert!(!is_known_exit_reason(u32::MAX));
}

#[test]
fn io_exits() {
    let page = vcpu_page();
    let mut run = vcpu_blank_run();
    run.exit_reason = KVM_EXIT_IO;
    run.io = KvmRunIo {
        direction: 0,
        size: 2,
        port: 0x3f8,
        count: 3,
        data_offset: 4096,
    };
    assert_eq!(
        classify_exit(&run, &page).unwrap(),
        VcpuExit::IoIn { port: 0x3f8, size: 6 }
    );

    run.io.direction = 1;
    let data = [page[4096], page[4097], page[4098], page[4099], page[4100], page[4101], 0, 0];
    assert_eq!(
        classify_exit(&run, &page).unwrap(),
        VcpuExit::IoOut { port: 0x3f8, size: 6, data }
    );

    // No more than eight bytes are handed over.
    run.io.size = 4;
    run.io.count = 4;
    let mut data = [0u8; 8];
    data.copy_from_slice(&page[4096..4104]);
    assert_eq!(
        classify_exit(&run, &page).unwrap(),
        VcpuExit::IoOut { port: 0x3f8, size: 16, data }
    );

    run.io.direction = 2;
    assert_eq!(classify_exit(&run, &page).unwrap_err().errno(), libc::EINVAL);
}

#[test]
fn io_exit_with_data_behind_the_page() {
    let page = vcpu_page();
    let mut run = vcpu_blank_run();
    run.exit_reason = KVM_EXIT_IO;
    run.io = KvmRunIo {
        direction: 1,
        size: 4,
        port: 0x80,
        count: 1,
        data_offset: 8190,
    };
    assert!(!is_run_page_complete(&run, &page));
    run.io.data_offset = 8188;
    assert!(is_run_page_complete(&run, &page));
    run.io.data_offset = u64::MAX;
    assert!(!is_run_page_complete(&run, &page));
    run.io.direction = 0;
    assert!(is_run_page_complete(&run, &page));
    run.exit_reason = KVM_EXIT_HLT;
    assert!(is_run_page_complete(&run, &page));
}

#[test]
fn io_data_area_in_the_page() {
    let mut run = vcpu_blank_run();
    run.exit_reason = KVM_EXIT_IO;
    run.io = KvmRunIo {
        direction: 0,
        size: 4,
        port: 0x80,
        count: 3,
        data_offset: 4096,
    };
    assert!(is_io_data_in_page(&run, 8192));
    assert!(is_io_data_in_page(&run, 4108));
    assert!(!is_io_data_in_page(&run, 4107));
    assert!(!is_io_data_in_page(&run, 0));
    run.io.data_offset = u64::MAX;
    assert!(!is_io_data_in_page(&run, 8192));
}

#[test]
fn mmio_exits() {
    let page = vcpu_page();
    let mut run = vcpu_blank_run();
    run.exit_reason = KVM_EXIT_MMIO;
    run.mmio = KvmRunMmio {
        phys_addr: 0xfee0_0000,
        data: [1, 2, 3, 4, 5, 6, 7, 8],
        len: 4,
        is_write: 1,
    };
    assert_eq!(
        classify_exit(&run, &page).unwrap(),
        VcpuExit::MmioWrite {
            address: 0xfee0_0000,
            size: 4,
            data: [1, 2, 3, 4, 5, 6, 7, 8],
        }
    );
    run.mmio.is_write = 0;
    run.mmio.len = 100;
    assert_eq!(
        classify_exit(&run, &page).unwrap(),
        VcpuExit::MmioRead {
            address: 0xfee0_0000,
            size: 8,
        }
    );
}

#[test]
fn exits_with_a_payload() {
    let page = vcpu_page();
    let mut run = vcpu_blank_run();
    run.exit_reason = KVM_EXIT_IOAPIC_EOI;
    run.eoi_vector = 0x31;
    assert_eq!(classify_exit(&run, &page).unwrap(), VcpuExit::IoapicEoi { vector: 0x31 });

    run.exit_reason = KVM_EXIT_FAIL_ENTRY;
    run.hardware_entry_failure_reason = 0x8000_0021;
    assert_eq!(
        classify_exit(&run, &page).unwrap(),
        VcpuExit::FailEntry {
            hardware_entry_failure_reason: 0x8000_0021,
        }
    );

    run.exit_reason = KVM_EXIT_SYSTEM_EVENT;
    run.system_event = KvmRunSystemEvent { type_: 2, flags: 7 };
    assert_eq!(classify_exit(&run, &page).unwrap(), VcpuExit::SystemEvent(2, 7));

    run.exit_reason = KVM_EXIT_HYPERV;
    run.hyperv.type_ = 1;
    run.hyperv.synic = KvmHypervSynic {
        msr: 0x4000_0080,
        control: 1,
        evt_page: 0x1000,
        msg_page: 0x2000,
    };
    assert_eq!(
        classify_exit(&run, &page).unwrap(),
        VcpuExit::HypervSynic {
            msr: 0x4000_0080,
            control: 1,
            evt_page: 0x1000,
            msg_page: 0x2000,
        }
    );
    run.hyperv.type_ = 2;
    run.hyperv.hcall = KvmHypervHcall {
        input: 0x5c,
        result: 0,
        params: [11, 12],
    };
    assert_eq!(
        classify_exit(&run, &page).unwrap(),
        VcpuExit::HypervHcall {
            input: 0x5c,
            params: [11, 12],
        }
    );
    run.hyperv.type_ = 3;
    assert_eq!(classify_exit(&run, &page).unwrap_err().errno(), libc::EINVAL);
}

#[test]
fn set_data_completes_a_port_read() {
    let vcpu = KvmVcpu::new(0);
    let mut run = vcpu_blank_run();
    run.exit_reason = KVM_EXIT_IO;
    run.io = KvmRunIo {
        direction: 0,
        size: 2,
        port: 0x60,
        count: 2,
        data_offset: 4096,
    };
    assert_eq!(
        vcpu.set_data(&run, &[1, 2, 3, 4]).unwrap(),
        RunPageUpdate::IoData { data_offset: 4096 }
    );
    assert_eq!(vcpu.set_data(&run, &[1, 2, 3]).unwrap_err().errno(), libc::EINVAL);
    run.io.direction = 1;
    assert_eq!(vcpu.set_data(&run, &[1, 2, 3, 4]).unwrap_err().errno(), libc::EINVAL);
}

#[test]
fn set_data_completes_a_memory_read() {
    let vcpu = KvmVcpu::new(0);
    let mut run = vcpu_blank_run();
    run.exit_reason = KVM_EXIT_MMIO;
    run.mmio = KvmRunMmio {
        phys_addr: 0x1000,
        data: [9, 9, 9, 9, 9, 9, 9, 9],
        len: 2,
        is_write: 0,
    };
    assert_eq!(
        vcpu.set_data(&run, &[0xaa, 0xbb]).unwrap(),
        RunPageUpdate::MmioData {
            data: [0xaa, 0xbb, 9, 9, 9, 9, 9, 9],
        }
    );
    assert_eq!(vcpu.set_data(&run, &[0xaa]).unwrap_err().errno(), libc::EINVAL);
    run.mmio.is_write = 1;
    assert_eq!(vcpu.set_data(&run, &[0xaa, 0xbb]).unwrap_err().errno(), libc::EINVAL);
    run.mmio.is_write = 0;
    run.mmio.len = 9;
    assert_eq!(vcpu.set_data(&run, &[0; 9]).unwrap_err().errno(), libc::EINVAL);
    run.mmio.len = 8;
    assert_eq!(
        vcpu.set_data(&run, &[1, 2, 3, 4, 5, 6, 7, 8]).unwrap(),
        RunPageUpdate::MmioData {
            data: [1, 2, 3, 4, 5, 6, 7, 8],
        }
    );
}

#[test]
fn set_data_completes_a_hypercall() {
    let vcpu = KvmVcpu::new(0);
    let mut run = vcpu_blank_run();
    run.exit_reason = KVM_EXIT_HYPERV;
    run.hyperv.type_ = 2;
    assert_eq!(
        vcpu.set_data(&run, &[0x08, 0x07, 0x06, 0x05, 0x04, 0x03, 0x02, 0x01])
            .unwrap(),
        RunPageUpdate::HypervResult {
            result: 0x0102_0304_0506_0708,
        }
    );
    assert_eq!(vcpu.set_data(&run, &[0; 4]).unwrap_err().errno(), libc::EINVAL);
    run.hyperv.type_ = 1;
    assert_eq!(vcpu.set_data(&run, &[0; 8]).unwrap_err().errno(), libc::EINVAL);
}

#[test]
fn set_data_without_a_pending_request() {
    let vcpu = KvmVcpu::new(0);
    let mut run = vcpu_blank_run();
    run.exit_reason = KVM_EXIT_HLT;
    assert_eq!(vcpu.set_data(&run, &[]).unwrap_err().errno(), libc::EINVAL);
    assert_eq!(vcpu.set_data(&run, &[1]).unwrap_err().errno(), libc::EINVAL);
}

#[test]
fn immediate_exit_bytes() {
    let vcpu = KvmVcpu::new(0);
    assert_eq!(vcpu.set_immediate_exit(true), 1);
    assert_eq!(vcpu.set_immediate_exit(false), 0);
    assert_eq!(KvmVcpu::set_local_immediate_exit(&None, true), None);
    let thread = Some(VcpuThread { signal_num: None });
    assert_eq!(KvmVcpu::set_local_immediate_exit(&thread, true), Some(1));
    assert_eq!(KvmVcpu::set_local_immediate_exit(&thread, false), Some(0));
}

#[test]
fn set_signal_mask() {
    let vm = vcpu_test_vm();
    let vcpu = vm.create_vcpu(0, 5, 0, true).unwrap();
    // The signal set with the first real-time signal, number 34, as the
    // host lays it out: bit 33.
    let mut sigset = [0u8; 128];
    sigset[4] = 0x02;
    let request = vcpu.set_signal_mask(&sigset);
    assert_eq!(request.len, 8);
    assert_eq!(request.sigset, [0, 0, 0, 0, 2, 0, 0, 0]);
}

#[test]
fn enable_capability_request() {
    let vcpu = KvmVcpu::new(0);
    let request = vcpu.enable_raw_capability(123, &[1, 2, 3, 4]);
    assert_eq!(request.cap, 123);
    assert_eq!(request.flags, 0);
    assert_eq!(request.args, [1, 2, 3, 4]);
}

#[test]
fn mp_state_numbers() {
    let states = [
        (0, MPState::Runnable),
        (1, MPState::Uninitialized),
        (2, MPState::InitReceived),
        (3, MPState::Halted),
        (4, MPState::SipiReceived),
        (5, MPState::Stopped),
    ];
    for (raw, state) in states {
        assert_eq!(MPState::from(&KvmMpState { mp_state: raw }), state);
        assert_eq!(KvmMpState::from(&state), KvmMpState { mp_state: raw });
        assert!(MPState::is_recognized(&KvmMpState { mp_state: raw }));
    }
}

#[test]
fn unknown_mp_state_reads_as_runnable() {
    for raw in [6u32, 7, 100, u32::MAX] {
        assert_eq!(MPState::from(&KvmMpState { mp_state: raw }), MPState::Runnable);
        assert!(!MPState::is_recognized(&KvmMpState { mp_state: raw }));
    }
}

#[test]
fn vcpu_mp_state_results() {
    let vcpu = KvmVcpu::new(0);
    let state = KvmMpState { mp_state: 3 };
    assert_eq!(vcpu.get_mp_state(0, 0, state).unwrap(), state);
    assert_eq!(vcpu.get_mp_state(1, 0, state).unwrap(), state);
    assert_eq!(vcpu.get_mp_state(-1, libc::EINVAL, state).unwrap_err().errno(), libc::EINVAL);
    assert!(vcpu.set_mp_state(0, 0).is_ok());
    assert_eq!(vcpu.set_mp_state(-1, libc::ENXIO).unwrap_err().errno(), libc::ENXIO);
}
