//! The hypervisor as a whole: what it can do, and how large the run-state
//! page of a virtual CPU is.

use vstd::prelude::*;
use crate::abi;
use crate::abi::KvmEnableCap;
use crate::errno::{enospc, Error, Result, ENOSPC};
use crate::vcpu::KvmVcpu;
use crate::vm::KvmVm;

verus! {

/// Capabilities of a hypervisor.
#[derive(Clone, Copy, Debug, PartialEq, Eq, Structural)]
pub enum HypervisorCap {
    ArmPmuV3,
    ImmediateExit,
    S390UserSigp,
    TscDeadlineTimer,
    UserMemory,
    Xcrs,
}

/// Capabilities of a virtual machine.
#[derive(Clone, Copy, Debug, PartialEq, Eq, Structural)]
pub enum VmCap {
    /// Tracking of the pages that the guest writes.
    DirtyLog,
    /// A paravirtual clock.
    PvClock,
    /// Telling the paravirtual clock that the guest was suspended.
    PvClockSuspend,
    /// Memory that the host cannot read.
    Protected,
}

/// The capabilities by the kernel's numbers.
#[derive(Clone, Copy, Debug, PartialEq, Eq, Structural)]
pub enum KvmCap {
    ArmPmuV3,
    ArmProtectedVm,
    ImmediateExit,
    KvmclockCtrl,
    S390UserSigp,
    TscDeadlineTimer,
    UserMemory,
    Xcrs,
}

impl KvmCap {
    /// The kernel's number of the capability.
    pub open spec fn number(self) -> u32 {
        match self {
            KvmCap::ArmPmuV3 => abi::KVM_CAP_ARM_PMU_V3,
            KvmCap::ArmProtectedVm => abi::KVM_CAP_ARM_PROTECTED_VM,
            KvmCap::ImmediateExit => abi::KVM_CAP_IMMEDIATE_EXIT,
            KvmCap::KvmclockCtrl => abi::KVM_CAP_KVMCLOCK_CTRL,
            KvmCap::S390UserSigp => abi::KVM_CAP_S390_USER_SIGP,
            KvmCap::TscDeadlineTimer => abi::KVM_CAP_TSC_DEADLINE_TIMER,
            KvmCap::UserMemory => abi::KVM_CAP_USER_MEMORY,
            KvmCap::Xcrs => abi::KVM_CAP_XCRS,
        }
    }

    /// Returns the kernel's number of the capability.
    pub fn as_u32(&self) -> (n: u32)
        ensures
            n == self.number(),
    {
        match self {
            KvmCap::ArmPmuV3 => abi::KVM_CAP_ARM_PMU_V3,
            KvmCap::ArmProtectedVm => abi::KVM_CAP_ARM_PROTECTED_VM,
            KvmCap::ImmediateExit => abi::KVM_CAP_IMMEDIATE_EXIT,
            KvmCap::KvmclockCtrl => abi::KVM_CAP_KVMCLOCK_CTRL,
            KvmCap::S390UserSigp => abi::KVM_CAP_S390_USER_SIGP,
            KvmCap::TscDeadlineTimer => abi::KVM_CAP_TSC_DEADLINE_TIMER,
            KvmCap::UserMemory => abi::KVM_CAP_USER_MEMORY,
            KvmCap::Xcrs => abi::KVM_CAP_XCRS,
        }
    }

    /// The kernel's capability that stands for a capability of the
    /// hypervisor.
    pub open spec fn of(cap: HypervisorCap) -> KvmCap {
        match cap {
            HypervisorCap::ArmPmuV3 => KvmCap::ArmPmuV3,
            HypervisorCap::ImmediateExit => KvmCap::ImmediateExit,
            HypervisorCap::S390UserSigp => KvmCap::S390UserSigp,
            HypervisorCap::TscDeadlineTimer => KvmCap::TscDeadlineTimer,
            HypervisorCap::UserMemory => KvmCap::UserMemory,
            HypervisorCap::Xcrs => KvmCap::Xcrs,
        }
    }

    /// Returns the kernel's capability that stands for `cap`.
    pub fn try_from(cap: &HypervisorCap) -> (r: Result<KvmCap>)
        ensures
            r == Ok::<KvmCap, Error>(KvmCap::of(*cap)),
    {
        match cap {
            HypervisorCap::ArmPmuV3 => Ok(KvmCap::ArmPmuV3),
            HypervisorCap::ImmediateExit => Ok(KvmCap::ImmediateExit),
            HypervisorCap::S390UserSigp => Ok(KvmCap::S390UserSigp),
            HypervisorCap::TscDeadlineTimer => Ok(KvmCap::TscDeadlineTimer),
            HypervisorCap::UserMemory => Ok(KvmCap::UserMemory),
            HypervisorCap::Xcrs => Ok(KvmCap::Xcrs),
        }
    }
}

/// What has to be found out to say whether a virtual machine has a
/// capability.
#[derive(Clone, Copy, Debug, PartialEq, Eq, Structural)]
pub enum CapabilityAnswer {
    /// It is known without asking.
    Known(bool),
    /// The kernel is to be asked for this capability.
    AskKernel(KvmCap),
}

/// What this architecture settles of the capabilities of a virtual machine
/// by itself: that a paravirtual clock is there.
pub open spec fn arch_capability(c: VmCap) -> Option<bool> {
    match c {
        VmCap::PvClock => Some(true),
        _ => None,
    }
}

/// How the question for a capability of a virtual machine is settled. What
/// the architecture settles stands. Otherwise a dirty log is there, a
/// paravirtual clock is not, and for the rest the kernel is asked.
pub open spec fn vm_capability(c: VmCap) -> CapabilityAnswer {
    match arch_capability(c) {
        Some(val) => CapabilityAnswer::Known(val),
        None => match c {
            VmCap::DirtyLog => CapabilityAnswer::Known(true),
            VmCap::PvClock => CapabilityAnswer::Known(false),
            VmCap::PvClockSuspend => CapabilityAnswer::AskKernel(KvmCap::KvmclockCtrl),
            VmCap::Protected => CapabilityAnswer::AskKernel(KvmCap::ArmProtectedVm),
        },
    }
}

/// The open hypervisor device, by its descriptor number.
#[derive(Clone, Copy, Debug, PartialEq, Eq, Structural)]
pub struct Kvm {
    kvm: i32,
}

impl Kvm {
    /// The descriptor number of the device.
    pub closed spec fn descriptor(&self) -> i32 {
        self.kvm
    }

    /// Says what opening the hypervisor device returned: the device, unless
    /// opening failed, which `ret` below zero tells, with the error number
    /// `errno`.
    pub fn new_with_path(ret: i32, errno: i32) -> (r: Result<Kvm>)
        ensures
            match r {
                Ok(kvm) => ret >= 0 && kvm.descriptor() == ret,
                Err(e) => ret < 0 && e.errno == errno,
            },
    {
        if ret < 0 {
            return Err(Error::new(errno));
        }
        Ok(Kvm { kvm: ret })
    }

    /// Returns the descriptor number of the device.
    pub fn as_raw_descriptor(&self) -> (fd: i32)
        ensures
            fd == self.descriptor(),
    {
        self.kvm
    }

    /// Says what the request for the size of a virtual CPU's run-state
    /// page returned: `res` bytes, unless `res` is not above zero, which
    /// fails with the error number `errno`.
    pub fn get_vcpu_mmap_size(&self, res: i32, errno: i32) -> (r: Result<usize>)
        ensures
            r == (if res > 0 {
                Ok::<usize, Error>(res as usize)
            } else {
                Err::<usize, Error>(Error { errno })
            }),
    {
        if res > 0 {
            Ok(res as usize)
        } else {
            Err(Error::new(errno))
        }
    }

    /// Says whether the hypervisor has the capability `cap`, given what the
    /// kernel answered when asked for the extension `KvmCap::of(cap)`: it
    /// has it where the answer is one.
    pub fn check_capability(&self, cap: &HypervisorCap, answer: i32) -> (has: bool)
        ensures
            has == (answer == 1),
    {
        match KvmCap::try_from(cap) {
            Ok(_) => answer == 1,
            Err(_) => false,
        }
    }
}

impl KvmVm {
    /// Says what creating the virtual CPU `id` came to. `fd` is what the
    /// kernel returned for it, a descriptor or, below zero, a failure with
    /// the error number `errno`; `run_mapped` tells whether its run-state
    /// page could then be mapped, which fails with `ENOSPC` where not.
    pub fn create_vcpu(&self, id: usize, fd: i32, errno: i32, run_mapped: bool) -> (r: Result<
        KvmVcpu,
    >)
        ensures
            match r {
                Ok(vcpu) => fd >= 0 && run_mapped && vcpu.spec_id() == id && vcpu.bound() is None,
                Err(e) => if fd < 0 {
                    e.errno == errno
                } else {
                    !run_mapped && e.errno == ENOSPC
                },
            },
    {
        if fd < 0 {
            return Err(Error::new(errno));
        }
        if !run_mapped {
            return Err(Error::new(enospc()));
        }
        Ok(KvmVcpu::new(id))
    }

    /// Says what the request for an interrupt controller in the kernel
    /// returned: it failed unless `ret` is zero, with the error number
    /// `errno`.
    pub fn create_irq_chip(&self, ret: i32, errno: i32) -> (r: Result<()>)
        ensures
            r == (if ret == 0 {
                Ok::<(), Error>(())
            } else {
                Err::<(), Error>(Error { errno })
            }),
    {
        crate::errno::errno_result(ret, errno)
    }

    /// Says whether the kernel has an extension, given what it answered
    /// when asked for it: it has it where the answer is one.
    pub fn check_raw_capability(&self, capability: KvmCap, answer: i32) -> (has: bool)
        ensures
            has == (answer == 1),
    {
        answer == 1
    }

    /// Says what this architecture settles of the capability `c` by itself.
    pub fn check_capability_arch(&self, c: VmCap) -> (answer: Option<bool>)
        ensures
            answer == arch_capability(c),
    {
        match c {
            VmCap::PvClock => Some(true),
            _ => None,
        }
    }

    /// Says how the question for the capability `c` of this virtual machine
    /// is settled.
    pub fn check_capability(&self, c: VmCap) -> (answer: CapabilityAnswer)
        ensures
            answer == vm_capability(c),
    {
        if let Some(val) = self.check_capability_arch(c) {
            return CapabilityAnswer::Known(val);
        }
        match c {
            VmCap::DirtyLog => CapabilityAnswer::Known(true),
            VmCap::PvClock => CapabilityAnswer::Known(false),
            VmCap::PvClockSuspend => CapabilityAnswer::AskKernel(KvmCap::KvmclockCtrl),
            VmCap::Protected => CapabilityAnswer::AskKernel(KvmCap::ArmProtectedVm),
        }
    }

    /// The request that enables the capability `capability` for this
    /// virtual machine, with the given flags and arguments.
    pub fn enable_raw_capability(&self, capability: KvmCap, flags: u32, args: &[u64; 4]) -> (request:
        KvmEnableCap)
        ensures
            request.cap == capability.number(),
            request.flags == flags,
            request.args == *args,
    {
        KvmEnableCap { cap: capability.as_u32(), flags, args: *args }
    }
}

} // verus!
