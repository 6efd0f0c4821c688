//! One virtual CPU: who may run it, why it stopped, and how a pending
//! request of the guest is completed.

use vstd::prelude::*;
use crate::abi;
use crate::abi::{KvmEnableCap, KvmMpState, KvmRun, KvmRunIo, KvmRunMmio};
use crate::errno::{ebusy, einval, Error, Result, EBUSY, EINVAL};

verus! {

/// Why a run of a virtual CPU returned to the host.
#[derive(Clone, Copy, Debug, PartialEq, Eq)]
pub enum VcpuExit {
    /// The guest reads from an I/O port.
    IoIn { port: u16, size: usize },
    /// The guest wrote to an I/O port; `data` holds up to eight bytes of it.
    IoOut { port: u16, size: usize, data: [u8; 8] },
    /// The guest reads from memory-mapped I/O.
    MmioRead { address: u64, size: usize },
    /// The guest wrote to memory-mapped I/O.
    MmioWrite { address: u64, size: usize, data: [u8; 8] },
    IoapicEoi { vector: u8 },
    HypervSynic { msr: u32, control: u64, evt_page: u64, msg_page: u64 },
    HypervHcall { input: u64, params: [u64; 2] },
    Unknown,
    Exception,
    Hypercall,
    Debug,
    Hlt,
    IrqWindowOpen,
    Shutdown,
    FailEntry { hardware_entry_failure_reason: u64 },
    Intr,
    SetTpr,
    TprAccess,
    S390Sieic,
    S390Reset,
    Dcr,
    Nmi,
    InternalError,
    Osi,
    PaprHcall,
    S390Ucontrol,
    Watchdog,
    S390Tsch,
    Epr,
    SystemEvent(u32, u64),
}

/// The exit reasons that carry nothing besides the reason itself, each with
/// the exit it stands for.
pub open spec fn plain_exit(reason: u32) -> Option<VcpuExit> {
    if reason == abi::KVM_EXIT_UNKNOWN {
        Some(VcpuExit::Unknown)
    } else if reason == abi::KVM_EXIT_EXCEPTION {
        Some(VcpuExit::Exception)
    } else if reason == abi::KVM_EXIT_HYPERCALL {
        Some(VcpuExit::Hypercall)
    } else if reason == abi::KVM_EXIT_DEBUG {
        Some(VcpuExit::Debug)
    } else if reason == abi::KVM_EXIT_HLT {
        Some(VcpuExit::Hlt)
    } else if reason == abi::KVM_EXIT_IRQ_WINDOW_OPEN {
        Some(VcpuExit::IrqWindowOpen)
    } else if reason == abi::KVM_EXIT_SHUTDOWN {
        Some(VcpuExit::Shutdown)
    } else if reason == abi::KVM_EXIT_INTR {
        Some(VcpuExit::Intr)
    } else if reason == abi::KVM_EXIT_SET_TPR {
        Some(VcpuExit::SetTpr)
    } else if reason == abi::KVM_EXIT_TPR_ACCESS {
        Some(VcpuExit::TprAccess)
    } else if reason == abi::KVM_EXIT_S390_SIEIC {
        Some(VcpuExit::S390Sieic)
    } else if reason == abi::KVM_EXIT_S390_RESET {
        Some(VcpuExit::S390Reset)
    } else if reason == abi::KVM_EXIT_DCR {
        Some(VcpuExit::Dcr)
    } else if reason == abi::KVM_EXIT_NMI {
        Some(VcpuExit::Nmi)
    } else if reason == abi::KVM_EXIT_INTERNAL_ERROR {
        Some(VcpuExit::InternalError)
    } else if reason == abi::KVM_EXIT_OSI {
        Some(VcpuExit::Osi)
    } else if reason == abi::KVM_EXIT_PAPR_HCALL {
        Some(VcpuExit::PaprHcall)
    } else if reason == abi::KVM_EXIT_S390_UCONTROL {
        Some(VcpuExit::S390Ucontrol)
    } else if reason == abi::KVM_EXIT_WATCHDOG {
        Some(VcpuExit::Watchdog)
    } else if reason == abi::KVM_EXIT_S390_TSCH {
        Some(VcpuExit::S390Tsch)
    } else if reason == abi::KVM_EXIT_EPR {
        Some(VcpuExit::Epr)
    } else {
        None
    }
}

/// Whether an exit reason is one that this crate classifies.
pub open spec fn exit_reason_known(reason: u32) -> bool {
    ||| plain_exit(reason) is Some
    ||| reason == abi::KVM_EXIT_IO
    ||| reason == abi::KVM_EXIT_MMIO
    ||| reason == abi::KVM_EXIT_IOAPIC_EOI
    ||| reason == abi::KVM_EXIT_HYPERV
    ||| reason == abi::KVM_EXIT_FAIL_ENTRY
    ||| reason == abi::KVM_EXIT_SYSTEM_EVENT
}

/// Number of bytes that a port I/O exit transfers.
pub open spec fn io_size(io: KvmRunIo) -> int {
    io.count * io.size
}

/// Number of data bytes that a port I/O write hands over: at most eight.
pub open spec fn io_out_len(io: KvmRunIo) -> int {
    if io_size(io) < 8 {
        io_size(io)
    } else {
        8
    }
}

/// The data of a port I/O write: the first bytes of the page's data area,
/// then zeros.
pub open spec fn io_out_data(io: KvmRunIo, page: Seq<u8>) -> Seq<u8> {
    Seq::new(
        8,
        |i: int|
            if i < io_out_len(io) {
                page[io.data_offset + i]
            } else {
                0u8
            },
    )
}

/// Number of bytes that a memory-mapped I/O exit transfers: at most eight.
pub open spec fn mmio_size(mmio: KvmRunMmio) -> int {
    if mmio.len < 8 {
        mmio.len as int
    } else {
        8
    }
}

/// Whether the page holds all that the exit in `run` refers to.
pub open spec fn run_page_complete(run: KvmRun, page: Seq<u8>) -> bool {
    run.exit_reason == abi::KVM_EXIT_IO ==> {
        &&& io_size(run.io) <= usize::MAX
        &&& run.io.direction == abi::KVM_EXIT_IO_OUT ==> run.io.data_offset + io_out_len(run.io)
            <= page.len()
    }
}

/// Whether `r` is the classification of the exit that `run` holds, with
/// `page` the bytes of the whole run-state page.
pub open spec fn is_exit_of(r: Result<VcpuExit>, run: KvmRun, page: Seq<u8>) -> bool {
    if run.exit_reason == abi::KVM_EXIT_IO {
        if run.io.direction == abi::KVM_EXIT_IO_IN {
            r == Ok::<VcpuExit, Error>(
                VcpuExit::IoIn { port: run.io.port, size: io_size(run.io) as usize },
            )
        } else if run.io.direction == abi::KVM_EXIT_IO_OUT {
            &&& r matches Ok(VcpuExit::IoOut { port, size, data })
            &&& port == run.io.port
            &&& size == io_size(run.io)
            &&& data@ == io_out_data(run.io, page)
        } else {
            r == Err::<VcpuExit, Error>(Error { errno: EINVAL })
        }
    } else if run.exit_reason == abi::KVM_EXIT_MMIO {
        if run.mmio.is_write != 0 {
            r == Ok::<VcpuExit, Error>(
                VcpuExit::MmioWrite {
                    address: run.mmio.phys_addr,
                    size: mmio_size(run.mmio) as usize,
                    data: run.mmio.data,
                },
            )
        } else {
            r == Ok::<VcpuExit, Error>(
                VcpuExit::MmioRead {
                    address: run.mmio.phys_addr,
                    size: mmio_size(run.mmio) as usize,
                },
            )
        }
    } else if run.exit_reason == abi::KVM_EXIT_IOAPIC_EOI {
        r == Ok::<VcpuExit, Error>(VcpuExit::IoapicEoi { vector: run.eoi_vector })
    } else if run.exit_reason == abi::KVM_EXIT_HYPERV {
        if run.hyperv.type_ == abi::KVM_EXIT_HYPERV_SYNIC {
            r == Ok::<VcpuExit, Error>(
                VcpuExit::HypervSynic {
                    msr: run.hyperv.synic.msr,
                    control: run.hyperv.synic.control,
                    evt_page: run.hyperv.synic.evt_page,
                    msg_page: run.hyperv.synic.msg_page,
                },
            )
        } else if run.hyperv.type_ == abi::KVM_EXIT_HYPERV_HCALL {
            r == Ok::<VcpuExit, Error>(
                VcpuExit::HypervHcall {
                    input: run.hyperv.hcall.input,
                    params: run.hyperv.hcall.params,
                },
            )
        } else {
            r == Err::<VcpuExit, Error>(Error { errno: EINVAL })
        }
    } else if run.exit_reason == abi::KVM_EXIT_FAIL_ENTRY {
        r == Ok::<VcpuExit, Error>(
            VcpuExit::FailEntry {
                hardware_entry_failure_reason: run.hardware_entry_failure_reason,
            },
        )
    } else if run.exit_reason == abi::KVM_EXIT_SYSTEM_EVENT {
        r == Ok::<VcpuExit, Error>(
            VcpuExit::SystemEvent(run.system_event.type_, run.system_event.flags),
        )
    } else {
        &&& plain_exit(run.exit_reason) is Some
        &&& r == Ok::<VcpuExit, Error>(plain_exit(run.exit_reason).unwrap())
    }
}

/// Tells whether this crate classifies an exit reason. A reason it does not
/// classify is a broken invariant of the kernel interface, and a caller must
/// not go on with it.
pub fn is_known_exit_reason(reason: u32) -> (known: bool)
    ensures
        known == exit_reason_known(reason),
{
    reason <= abi::KVM_EXIT_SYSTEM_EVENT || reason == abi::KVM_EXIT_IOAPIC_EOI || reason == abi::KVM_EXIT_HYPERV
}

/// Number of bytes that a port I/O exit transfers.
fn io_byte_count(io: &KvmRunIo) -> (n: u64)
    ensures
        n == io_size(*io),
{
    assert(io.count * io.size <= 0xffff_ffff * 0xff) by (nonlinear_arith)
        requires
            0 <= io.count <= 0xffff_ffff,
            0 <= io.size <= 0xff,
    ;
    (io.count as u64) * (io.size as u64)
}

/// Tells whether the run-state page holds all that the exit in `run` refers
/// to.
pub fn is_run_page_complete(run: &KvmRun, page: &[u8]) -> (complete: bool)
    ensures
        complete == run_page_complete(*run, page@),
{
    if run.exit_reason != abi::KVM_EXIT_IO {
        return true;
    }
    let size: u64 = io_byte_count(&run.io);
    if size > usize::MAX as u64 {
        return false;
    }
    if run.io.direction as u32 != abi::KVM_EXIT_IO_OUT {
        return true;
    }
    let len: u64 = if size < 8 { size } else { 8 };
    let page_len: u64 = page.len() as u64;
    len <= page_len && run.io.data_offset <= page_len - len
}

/// Copies the data of a port I/O write out of the run-state page.
fn read_io_out_data(io: &KvmRunIo, page: &[u8]) -> (data: [u8; 8])
    requires
        io.data_offset + io_out_len(*io) <= page@.len(),
    ensures
        data@ == io_out_data(*io, page@),
{
    let size: u64 = io_byte_count(io);
    let len: usize = if size < 8 { size as usize } else { 8 };
    let page_len: usize = page.len();
    let offset: usize = io.data_offset as usize;
    let mut data: [u8; 8] = [0u8; 8];
    let mut i: usize = 0;
    while i < len
        invariant
            i <= len <= 8,
            len == io_out_len(*io),
            offset == io.data_offset,
            offset + len <= page@.len(),
            page@.len() == page_len,
            forall|j: int| 0 <= j < i ==> data@[j] == page@[offset + j],
            forall|j: int| i <= j < 8 ==> data@[j] == 0u8,
        decreases len - i,
    {
        data[i] = page[offset + i];
        i += 1;
    }
    assert(data@ =~= io_out_data(*io, page@));
    data
}

/// Classifies the exit that the run-state page holds after a run returned.
pub fn classify_exit(run: &KvmRun, page: &[u8]) -> (r: Result<VcpuExit>)
    requires
        exit_reason_known(run.exit_reason),
        run_page_complete(*run, page@),
    ensures
        is_exit_of(r, *run, page@),
{
    let reason: u32 = run.exit_reason;
    if reason == abi::KVM_EXIT_IO {
        let port: u16 = run.io.port;
        let size: usize = io_byte_count(&run.io) as usize;
        let direction: u32 = run.io.direction as u32;
        if direction == abi::KVM_EXIT_IO_IN {
            Ok(VcpuExit::IoIn { port, size })
        } else if direction == abi::KVM_EXIT_IO_OUT {
            let data: [u8; 8] = read_io_out_data(&run.io, page);
            Ok(VcpuExit::IoOut { port, size, data })
        } else {
            Err(Error::new(einval()))
        }
    } else if reason == abi::KVM_EXIT_MMIO {
        let address: u64 = run.mmio.phys_addr;
        let size: usize = if run.mmio.len < 8 { run.mmio.len as usize } else { 8 };
        if run.mmio.is_write != 0 {
            Ok(VcpuExit::MmioWrite { address, size, data: run.mmio.data })
        } else {
            Ok(VcpuExit::MmioRead { address, size })
        }
    } else if reason == abi::KVM_EXIT_IOAPIC_EOI {
        Ok(VcpuExit::IoapicEoi { vector: run.eoi_vector })
    } else if reason == abi::KVM_EXIT_HYPERV {
        if run.hyperv.type_ == abi::KVM_EXIT_HYPERV_SYNIC {
            Ok(
                VcpuExit::HypervSynic {
                    msr: run.hyperv.synic.msr,
                    control: run.hyperv.synic.control,
                    evt_page: run.hyperv.synic.evt_page,
                    msg_page: run.hyperv.synic.msg_page,
                },
            )
        } else if run.hyperv.type_ == abi::KVM_EXIT_HYPERV_HCALL {
            Ok(
                VcpuExit::HypervHcall {
                    input: run.hyperv.hcall.input,
                    params: run.hyperv.hcall.params,
                },
            )
        } else {
            Err(Error::new(einval()))
        }
    } else if reason == abi::KVM_EXIT_UNKNOWN {
        Ok(VcpuExit::Unknown)
    } else if reason == abi::KVM_EXIT_EXCEPTION {
        Ok(VcpuExit::Exception)
    } else if reason == abi::KVM_EXIT_HYPERCALL {
        Ok(VcpuExit::Hypercall)
    } else if reason == abi::KVM_EXIT_DEBUG {
        Ok(VcpuExit::Debug)
    } else if reason == abi::KVM_EXIT_HLT {
        Ok(VcpuExit::Hlt)
    } else if reason == abi::KVM_EXIT_IRQ_WINDOW_OPEN {
        Ok(VcpuExit::IrqWindowOpen)
    } else if reason == abi::KVM_EXIT_SHUTDOWN {
        Ok(VcpuExit::Shutdown)
    } else if reason == abi::KVM_EXIT_FAIL_ENTRY {
        Ok(
            VcpuExit::FailEntry {
                hardware_entry_failure_reason: run.hardware_entry_failure_reason,
            },
        )
    } else if reason == abi::KVM_EXIT_INTR {
        Ok(VcpuExit::Intr)
    } else if reason == abi::KVM_EXIT_SET_TPR {
        Ok(VcpuExit::SetTpr)
    } else if reason == abi::KVM_EXIT_TPR_ACCESS {
        Ok(VcpuExit::TprAccess)
    } else if reason == abi::KVM_EXIT_S390_SIEIC {
        Ok(VcpuExit::S390Sieic)
    } else if reason == abi::KVM_EXIT_S390_RESET {
        Ok(VcpuExit::S390Reset)
    } else if reason == abi::KVM_EXIT_DCR {
        Ok(VcpuExit::Dcr)
    } else if reason == abi::KVM_EXIT_NMI {
        Ok(VcpuExit::Nmi)
    } else if reason == abi::KVM_EXIT_INTERNAL_ERROR {
        Ok(VcpuExit::InternalError)
    } else if reason == abi::KVM_EXIT_OSI {
        Ok(VcpuExit::Osi)
    } else if reason == abi::KVM_EXIT_PAPR_HCALL {
        Ok(VcpuExit::PaprHcall)
    } else if reason == abi::KVM_EXIT_S390_UCONTROL {
        Ok(VcpuExit::S390Ucontrol)
    } else if reason == abi::KVM_EXIT_WATCHDOG {
        Ok(VcpuExit::Watchdog)
    } else if reason == abi::KVM_EXIT_S390_TSCH {
        Ok(VcpuExit::S390Tsch)
    } else if reason == abi::KVM_EXIT_EPR {
        Ok(VcpuExit::Epr)
    } else {
        Ok(VcpuExit::SystemEvent(run.system_event.type_, run.system_event.flags))
    }
}

} // verus!

verus! {

/// What a thread records while it is the runner of a virtual CPU: the signal
/// that other threads send to force it out of a run, if there is one.
#[derive(Clone, Copy, Debug, PartialEq, Eq, Structural)]
pub struct VcpuThread {
    pub signal_num: Option<i32>,
}

/// The token that proves its holder to be the runner of a virtual CPU.
#[derive(Debug)]
pub struct VcpuRunHandle {
    fingerprint: u64,
}

impl VcpuRunHandle {
    /// The number that ties this handle to the virtual CPU it was taken
    /// from.
    pub closed spec fn fingerprint(&self) -> u64 {
        self.fingerprint
    }

    /// Returns the handle's fingerprint.
    pub fn as_u64(&self) -> (n: u64)
        ensures
            n == self.fingerprint(),
    {
        self.fingerprint
    }
}

/// Whether a run handle can be taken: none is out for the virtual CPU, whose
/// bound fingerprint is `bound`, and the thread, whose record is `thread`,
/// runs no virtual CPU.
pub open spec fn take_succeeds(bound: Option<u64>, thread: Option<VcpuThread>) -> bool {
    bound is None && thread is None
}

/// The fingerprint bound to a virtual CPU after an attempt to take a run
/// handle with `fingerprint`: that fingerprint where the attempt succeeds,
/// and what was bound before where it fails.
pub open spec fn bound_after_take(
    bound: Option<u64>,
    thread: Option<VcpuThread>,
    fingerprint: u64,
) -> Option<u64> {
    if take_succeeds(bound, thread) {
        Some(fingerprint)
    } else {
        bound
    }
}

/// The thread's record after an attempt to take a run handle.
pub open spec fn thread_after_take(
    bound: Option<u64>,
    thread: Option<VcpuThread>,
    signal_num: Option<i32>,
) -> Option<VcpuThread> {
    if take_succeeds(bound, thread) {
        Some(VcpuThread { signal_num })
    } else {
        thread
    }
}

/// The fingerprint bound to a virtual CPU after the handle with
/// `fingerprint` is given back.
pub open spec fn bound_after_release(bound: Option<u64>, fingerprint: u64) -> Option<u64> {
    if bound == Some(fingerprint) {
        None
    } else {
        bound
    }
}

/// Whether the handle with `fingerprint` may run a virtual CPU whose bound
/// fingerprint is `bound`: it is the handle that is out for it.
pub open spec fn may_run(bound: Option<u64>, fingerprint: u64) -> bool {
    bound == Some(fingerprint)
}

/// The host's record of one virtual CPU.
#[derive(Debug)]
pub struct KvmVcpu {
    id: usize,
    run_handle_fingerprint: Option<u64>,
}

impl KvmVcpu {
    /// The index of the virtual CPU in its machine.
    pub closed spec fn spec_id(&self) -> usize {
        self.id
    }

    /// The fingerprint of the run handle that is out for this virtual CPU,
    /// if one is.
    pub closed spec fn bound(&self) -> Option<u64> {
        self.run_handle_fingerprint
    }

    /// A virtual CPU that no thread runs yet.
    pub fn new(id: usize) -> (vcpu: KvmVcpu)
        ensures
            vcpu.spec_id() == id,
            vcpu.bound() is None,
    {
        KvmVcpu { id, run_handle_fingerprint: None }
    }

    /// A second record of the same virtual CPU, with a run handle slot of
    /// its own, which starts free.
    pub fn try_clone(&self) -> (vcpu: KvmVcpu)
        ensures
            vcpu.spec_id() == self.spec_id(),
            vcpu.bound() is None,
    {
        KvmVcpu { id: self.id, run_handle_fingerprint: None }
    }

    /// The index of the virtual CPU in its machine.
    pub fn id(&self) -> (id: usize)
        ensures
            id == self.spec_id(),
    {
        self.id
    }

    /// Makes the calling thread the runner of this virtual CPU.
    ///
    /// `fingerprint` is the number of the new handle, which the caller draws
    /// from a source that never repeats; `thread` is the calling thread's
    /// own record. Fails with `EBUSY` while a handle is out for this virtual
    /// CPU, and where the calling thread already runs a virtual CPU; either
    /// way everything is left as it was, so that the virtual CPU holds a
    /// fingerprint only while a handle for it exists. On success the caller
    /// blocks `signal_num`, if given, while it installs the thread's record.
    pub fn take_run_handle(
        &mut self,
        signal_num: Option<i32>,
        fingerprint: u64,
        thread: &mut Option<VcpuThread>,
    ) -> (r: Result<VcpuRunHandle>)
        ensures
            final(self).spec_id() == old(self).spec_id(),
            final(self).bound() == bound_after_take(
                old(self).bound(),
                *old(thread),
                fingerprint,
            ),
            *final(thread) == thread_after_take(old(self).bound(), *old(thread), signal_num),
            r is Ok <==> take_succeeds(old(self).bound(), *old(thread)),
            r matches Ok(handle) ==> handle.fingerprint() == fingerprint,
            r matches Err(e) ==> e.errno == EBUSY,
    {
        if self.run_handle_fingerprint.is_some() {
            return Err(Error::new(ebusy()));
        }
        if thread.is_some() {
            return Err(Error::new(ebusy()));
        }
        self.run_handle_fingerprint = Some(fingerprint);
        *thread = Some(VcpuThread { signal_num });
        Ok(VcpuRunHandle { fingerprint })
    }

    /// Gives a run handle back. The thread's record is cleared, and the
    /// virtual CPU is free again if the handle was the one out for it. The
    /// result is the signal that the thread's record named, which the caller
    /// blocks while it clears the record.
    pub fn release_run_handle(
        &mut self,
        run_handle: VcpuRunHandle,
        thread: &mut Option<VcpuThread>,
    ) -> (signal_num: Option<i32>)
        ensures
            final(self).spec_id() == old(self).spec_id(),
            final(self).bound() == bound_after_release(
                old(self).bound(),
                run_handle.fingerprint(),
            ),
            *final(thread) is None,
            signal_num == (match *old(thread) {
                Some(state) => state.signal_num,
                None => None::<i32>,
            }),
    {
        let signal_num: Option<i32> = match thread {
            Some(state) => state.signal_num,
            None => None,
        };
        *thread = None;
        match self.run_handle_fingerprint {
            Some(bound) => {
                if bound == run_handle.fingerprint {
                    self.run_handle_fingerprint = None;
                }
            },
            None => {},
        }
        signal_num
    }

    /// Tells whether `run_handle` is the handle that is out for this virtual
    /// CPU. Running a virtual CPU under any other handle is a broken
    /// invariant; a caller stops the program on it.
    pub fn owns_run_handle(&self, run_handle: &VcpuRunHandle) -> (owns: bool)
        ensures
            owns == may_run(self.bound(), run_handle.fingerprint()),
    {
        match self.run_handle_fingerprint {
            Some(bound) => bound == run_handle.fingerprint,
            None => false,
        }
    }

    /// Says what a run of this virtual CPU under `run_handle` returned:
    /// `kernel` is the outcome of the blocking run request, `run` and `page`
    /// the run-state page as the kernel left it. A failed request comes back
    /// as it is; a returned one is classified by the exit it left.
    pub fn run(
        &self,
        run_handle: &VcpuRunHandle,
        kernel: Result<()>,
        run: &KvmRun,
        page: &[u8],
    ) -> (r: Result<VcpuExit>)
        requires
            may_run(self.bound(), run_handle.fingerprint()),
            kernel is Ok ==> exit_reason_known(run.exit_reason),
            kernel is Ok ==> run_page_complete(*run, page@),
        ensures
            kernel matches Err(e) ==> r == Err::<VcpuExit, Error>(e),
            kernel is Ok ==> is_exit_of(r, *run, page@),
    {
        match kernel {
            Err(e) => Err(e),
            Ok(_) => classify_exit(run, page),
        }
    }
}

/// While a run handle is out for a virtual CPU, no second one can be taken,
/// whatever thread asks and whatever fingerprint it brings.
pub proof fn lemma_second_take_is_busy(
    bound: Option<u64>,
    thread: Option<VcpuThread>,
    signal_num: Option<i32>,
    first: u64,
    other_thread: Option<VcpuThread>,
)
    requires
        take_succeeds(bound, thread),
    ensures
        !take_succeeds(bound_after_take(bound, thread, first), other_thread),
        !take_succeeds(
            bound_after_take(bound, thread, first),
            thread_after_take(bound, thread, signal_num),
        ),
{
}

/// Once the handle that was taken is given back, a thread that runs no
/// virtual CPU can take the next one.
pub proof fn lemma_take_after_release(
    bound: Option<u64>,
    thread: Option<VcpuThread>,
    first: u64,
)
    requires
        take_succeeds(bound, thread),
    ensures
        bound_after_release(bound_after_take(bound, thread, first), first) is None,
        take_succeeds(bound_after_release(bound_after_take(bound, thread, first), first), None),
{
}

/// An attempt that fails changes nothing: the virtual CPU is bound to what
/// it was bound to and the thread's record is as it was. So a virtual CPU
/// that a busy thread tried to take is still free for a thread that runs
/// none.
pub proof fn lemma_failed_take_changes_nothing(
    bound: Option<u64>,
    thread: Option<VcpuThread>,
    signal_num: Option<i32>,
    fingerprint: u64,
)
    requires
        !take_succeeds(bound, thread),
    ensures
        bound_after_take(bound, thread, fingerprint) == bound,
        thread_after_take(bound, thread, signal_num) == thread,
        bound is None ==> take_succeeds(bound_after_take(bound, thread, fingerprint), None),
{
}

/// A virtual CPU holds a fingerprint only through a take that succeeded:
/// from a free virtual CPU no attempt binds a fingerprint without handing
/// out the handle that carries it.
pub proof fn lemma_bound_only_with_handle(
    thread: Option<VcpuThread>,
    fingerprint: u64,
)
    ensures
        bound_after_take(None, thread, fingerprint) is Some <==> take_succeeds(None, thread),
{
}

/// Which handles may run a virtual CPU: the one that the last take that
/// succeeded handed out, and no other. A free virtual CPU admits none, and a
/// handle that was given back runs it no more. To run under a handle that
/// may not is a broken invariant on which a caller stops the program.
pub proof fn lemma_only_the_bound_handle_runs(
    bound: Option<u64>,
    thread: Option<VcpuThread>,
    fingerprint: u64,
    other: u64,
)
    ensures
        !may_run(None, fingerprint),
        take_succeeds(bound, thread) ==> may_run(
            bound_after_take(bound, thread, fingerprint),
            fingerprint,
        ),
        take_succeeds(bound, thread) && other != fingerprint ==> !may_run(
            bound_after_take(bound, thread, fingerprint),
            other,
        ),
        !may_run(bound_after_release(bound, fingerprint), fingerprint),
        may_run(bound, fingerprint) && other != fingerprint ==> !may_run(bound, other),
{
}

} // verus!

verus! {

/// What completing a pending request of the guest writes to the run-state
/// page.
#[derive(Clone, Copy, Debug, PartialEq, Eq)]
pub enum RunPageUpdate {
    /// The bytes given go to the page at this byte offset: the data of a
    /// port read.
    IoData { data_offset: u64 },
    /// The data of a memory-mapped read becomes this.
    MmioData { data: [u8; 8] },
    /// The result of a Hyper-V hypercall becomes this: the eight bytes
    /// given, read as a number with the low byte first.
    HypervResult { result: u64 },
}

/// The data area of a memory-mapped read after `data` was put in front of
/// what it held.
pub open spec fn mmio_data_after(held: Seq<u8>, data: Seq<u8>) -> Seq<u8> {
    Seq::new(
        8,
        |i: int|
            if i < data.len() {
                data[i]
            } else {
                held[i]
            },
    )
}

/// Whether the exit that `run` holds awaits `len` bytes of data from the
/// host: a port read of that many bytes, a memory-mapped read of that many,
/// eight at most, or a Hyper-V hypercall and eight.
pub open spec fn awaits_data(run: KvmRun, len: int) -> bool {
    if run.exit_reason == abi::KVM_EXIT_IO {
        run.io.direction == abi::KVM_EXIT_IO_IN && io_size(run.io) == len
    } else if run.exit_reason == abi::KVM_EXIT_MMIO {
        run.mmio.is_write == 0 && run.mmio.len == len && len <= 8
    } else if run.exit_reason == abi::KVM_EXIT_HYPERV {
        run.hyperv.type_ == abi::KVM_EXIT_HYPERV_HCALL && len == 8
    } else {
        false
    }
}

/// Whether `update` is what completing the exit in `run` with `data`
/// writes.
pub open spec fn is_update_of(update: RunPageUpdate, run: KvmRun, data: Seq<u8>) -> bool {
    if run.exit_reason == abi::KVM_EXIT_IO {
        update == (RunPageUpdate::IoData { data_offset: run.io.data_offset })
    } else if run.exit_reason == abi::KVM_EXIT_MMIO {
        &&& update matches RunPageUpdate::MmioData { data: written }
        &&& written@ == mmio_data_after(run.mmio.data@, data)
    } else {
        update == (RunPageUpdate::HypervResult {
            result: vstd::bytes::spec_u64_from_le_bytes(data),
        })
    }
}

/// Whether a page of `page_len` bytes holds the whole data area of the port
/// I/O exit in `run`.
pub open spec fn io_data_in_page(run: KvmRun, page_len: int) -> bool {
    run.io.data_offset + io_size(run.io) <= page_len
}

/// Tells whether a run-state page of `page_len` bytes holds the whole data
/// area of the port I/O exit in `run`, which is where the data of a port
/// read goes.
pub fn is_io_data_in_page(run: &KvmRun, page_len: usize) -> (inside: bool)
    ensures
        inside == io_data_in_page(*run, page_len as int),
{
    let size: u64 = io_byte_count(&run.io);
    let len: u64 = page_len as u64;
    size <= len && run.io.data_offset <= len - size
}

/// The byte that the run-state page holds for "leave the run at once".
pub open spec fn immediate_exit_byte(exit: bool) -> u8 {
    if exit {
        1
    } else {
        0
    }
}

/// The request that installs the mask of signals blocked during a run: the
/// length that the kernel reads, and that many bytes of the signal set.
#[derive(Clone, Copy, Debug, PartialEq, Eq)]
pub struct KvmSignalMask {
    pub len: u32,
    pub sigset: [u8; 8],
}

impl KvmVcpu {
    /// Says what completing the pending exit in `run` with `data` writes
    /// to the run-state page. Fails with `EINVAL` where the exit awaits no
    /// data, or not as many bytes as `data` has.
    pub fn set_data(&self, run: &KvmRun, data: &[u8]) -> (r: Result<RunPageUpdate>)
        ensures
            match r {
                Ok(update) => awaits_data(*run, data@.len() as int) && is_update_of(
                    update,
                    *run,
                    data@,
                ),
                Err(e) => !awaits_data(*run, data@.len() as int) && e.errno == EINVAL,
            },
    {
        let reason: u32 = run.exit_reason;
        if reason == abi::KVM_EXIT_IO {
            if run.io.direction as u32 != abi::KVM_EXIT_IO_IN {
                return Err(Error::new(einval()));
            }
            let data_size: u64 = io_byte_count(&run.io);
            if data_size != data.len() as u64 {
                return Err(Error::new(einval()));
            }
            Ok(RunPageUpdate::IoData { data_offset: run.io.data_offset })
        } else if reason == abi::KVM_EXIT_MMIO {
            if run.mmio.is_write != 0 {
                return Err(Error::new(einval()));
            }
            let len: usize = data.len();
            if run.mmio.len as u64 != len as u64 || len > 8 {
                return Err(Error::new(einval()));
            }
            let mut written: [u8; 8] = run.mmio.data;
            let mut i: usize = 0;
            while i < len
                invariant
                    i <= len <= 8,
                    len == data@.len(),
                    forall|j: int| 0 <= j < i ==> written@[j] == data@[j],
                    forall|j: int| i <= j < 8 ==> written@[j] == run.mmio.data@[j],
                decreases len - i,
            {
                written[i] = data[i];
                i += 1;
            }
            assert(written@ =~= mmio_data_after(run.mmio.data@, data@));
            Ok(RunPageUpdate::MmioData { data: written })
        } else if reason == abi::KVM_EXIT_HYPERV {
            if run.hyperv.type_ != abi::KVM_EXIT_HYPERV_HCALL {
                return Err(Error::new(einval()));
            }
            if data.len() != 8 {
                return Err(Error::new(einval()));
            }
            Ok(RunPageUpdate::HypervResult { result: vstd::bytes::u64_from_le_bytes(data) })
        } else {
            Err(Error::new(einval()))
        }
    }

    /// The byte to write to the run-state page so that the next run, or the
    /// one under way, returns at once (`exit`), or runs as usual.
    pub fn set_immediate_exit(&self, exit: bool) -> (byte: u8)
        ensures
            byte == immediate_exit_byte(exit),
    {
        if exit {
            1
        } else {
            0
        }
    }

    /// The same for the virtual CPU that the calling thread runs, whose
    /// record is `thread`: nothing where it runs none.
    pub fn set_local_immediate_exit(thread: &Option<VcpuThread>, exit: bool) -> (byte: Option<u8>)
        ensures
            byte == (if *thread is Some {
                Some(immediate_exit_byte(exit))
            } else {
                None::<u8>
            }),
    {
        match thread {
            Some(_) => Some(
                if exit {
                    1
                } else {
                    0
                },
            ),
            None => None,
        }
    }

    /// The request that installs the signals blocked during a run. `sigset`
    /// holds the bytes of the signal set; the kernel takes the first eight.
    pub fn set_signal_mask(&self, sigset: &[u8]) -> (request: KvmSignalMask)
        requires
            sigset@.len() >= 8,
        ensures
            request.len == abi::KVM_SIGNAL_MASK_LEN,
            request.sigset@ == sigset@.subrange(0, 8),
    {
        let mut bytes: [u8; 8] = [0u8; 8];
        let mut i: usize = 0;
        while i < 8
            invariant
                i <= 8,
                sigset@.len() >= 8,
                forall|j: int| 0 <= j < i ==> bytes@[j] == sigset@[j],
            decreases 8 - i,
        {
            bytes[i] = sigset[i];
            i += 1;
        }
        assert(bytes@ =~= sigset@.subrange(0, 8));
        KvmSignalMask { len: abi::KVM_SIGNAL_MASK_LEN, sigset: bytes }
    }

    /// The request that enables the capability numbered `cap` with the
    /// arguments `args`.
    pub fn enable_raw_capability(&self, cap: u32, args: &[u64; 4]) -> (request: KvmEnableCap)
        ensures
            request.cap == cap,
            request.flags == 0,
            request.args == *args,
    {
        KvmEnableCap { cap, flags: 0, args: *args }
    }
}

} // verus!

verus! {

/// The multiprocessor state of a virtual CPU.
#[derive(Clone, Copy, Debug, PartialEq, Eq, Structural)]
pub enum MPState {
    /// The virtual CPU runs.
    Runnable,
    /// It waits for an INIT signal.
    Uninitialized,
    /// It received an INIT signal and waits for its start-up address.
    InitReceived,
    /// It executed a halt and waits for an interrupt.
    Halted,
    /// It received its start-up address.
    SipiReceived,
    /// It is stopped.
    Stopped,
}

/// Whether a state number of the kernel is one that this crate knows.
pub open spec fn mp_state_recognized(raw: u32) -> bool {
    raw <= abi::KVM_MP_STATE_STOPPED
}

/// The state that a state number of the kernel stands for. A number that
/// this crate does not know counts as runnable.
pub open spec fn mp_state_of(raw: u32) -> MPState {
    if raw == abi::KVM_MP_STATE_UNINITIALIZED {
        MPState::Uninitialized
    } else if raw == abi::KVM_MP_STATE_INIT_RECEIVED {
        MPState::InitReceived
    } else if raw == abi::KVM_MP_STATE_HALTED {
        MPState::Halted
    } else if raw == abi::KVM_MP_STATE_SIPI_RECEIVED {
        MPState::SipiReceived
    } else if raw == abi::KVM_MP_STATE_STOPPED {
        MPState::Stopped
    } else {
        MPState::Runnable
    }
}

/// The kernel's number of a state.
pub open spec fn raw_mp_state(state: MPState) -> u32 {
    match state {
        MPState::Runnable => abi::KVM_MP_STATE_RUNNABLE,
        MPState::Uninitialized => abi::KVM_MP_STATE_UNINITIALIZED,
        MPState::InitReceived => abi::KVM_MP_STATE_INIT_RECEIVED,
        MPState::Halted => abi::KVM_MP_STATE_HALTED,
        MPState::SipiReceived => abi::KVM_MP_STATE_SIPI_RECEIVED,
        MPState::Stopped => abi::KVM_MP_STATE_STOPPED,
    }
}

impl MPState {
    /// The state that the kernel's record `item` stands for. A number that
    /// this crate does not know is read as runnable, never as an error;
    /// `is_recognized` tells a caller that wants to warn of it.
    pub fn from(item: &KvmMpState) -> (state: MPState)
        ensures
            state == mp_state_of(item.mp_state),
            !mp_state_recognized(item.mp_state) ==> state == MPState::Runnable,
    {
        let raw: u32 = item.mp_state;
        if raw == abi::KVM_MP_STATE_RUNNABLE {
            MPState::Runnable
        } else if raw == abi::KVM_MP_STATE_UNINITIALIZED {
            MPState::Uninitialized
        } else if raw == abi::KVM_MP_STATE_INIT_RECEIVED {
            MPState::InitReceived
        } else if raw == abi::KVM_MP_STATE_HALTED {
            MPState::Halted
        } else if raw == abi::KVM_MP_STATE_SIPI_RECEIVED {
            MPState::SipiReceived
        } else if raw == abi::KVM_MP_STATE_STOPPED {
            MPState::Stopped
        } else {
            MPState::Runnable
        }
    }

    /// Tells whether the kernel's record `item` holds a state number that
    /// this crate knows.
    pub fn is_recognized(item: &KvmMpState) -> (known: bool)
        ensures
            known == mp_state_recognized(item.mp_state),
    {
        item.mp_state <= abi::KVM_MP_STATE_STOPPED
    }
}

impl KvmMpState {
    /// The kernel's record of `item`.
    pub fn from(item: &MPState) -> (raw: KvmMpState)
        ensures
            raw.mp_state == raw_mp_state(*item),
    {
        KvmMpState {
            mp_state: match item {
                MPState::Runnable => abi::KVM_MP_STATE_RUNNABLE,
                MPState::Uninitialized => abi::KVM_MP_STATE_UNINITIALIZED,
                MPState::InitReceived => abi::KVM_MP_STATE_INIT_RECEIVED,
                MPState::Halted => abi::KVM_MP_STATE_HALTED,
                MPState::SipiReceived => abi::KVM_MP_STATE_SIPI_RECEIVED,
                MPState::Stopped => abi::KVM_MP_STATE_STOPPED,
            },
        }
    }
}

/// Every state comes back from its number, and every number that this
/// crate knows from its state.
pub proof fn lemma_mp_state_round_trip(state: MPState, raw: u32)
    ensures
        mp_state_of(raw_mp_state(state)) == state,
        mp_state_recognized(raw_mp_state(state)),
        mp_state_recognized(raw) ==> raw_mp_state(mp_state_of(raw)) == raw,
        !mp_state_recognized(raw) ==> mp_state_of(raw) == MPState::Runnable,
{
}

impl KvmVcpu {
    /// Says what a request for the multiprocessor state returned: the
    /// record that the kernel filled, `state`, unless the request failed,
    /// which `ret` below zero tells, with the error number `errno`.
    pub fn get_mp_state(&self, ret: i32, errno: i32, state: KvmMpState) -> (r: Result<KvmMpState>)
        ensures
            r == (if ret < 0 {
                Err::<KvmMpState, Error>(Error { errno })
            } else {
                Ok::<KvmMpState, Error>(state)
            }),
    {
        if ret < 0 {
            return Err(Error::new(errno));
        }
        Ok(state)
    }

    /// Says what a request to set the multiprocessor state returned: it
    /// failed where `ret` is below zero, with the error number `errno`.
    pub fn set_mp_state(&self, ret: i32, errno: i32) -> (r: Result<()>)
        ensures
            r == (if ret < 0 {
                Err::<(), Error>(Error { errno })
            } else {
                Ok::<(), Error>(())
            }),
    {
        if ret < 0 {
            return Err(Error::new(errno));
        }
        Ok(())
    }
}

} // verus!
