//! The interrupt controller that the kernel emulates: the host keeps the
//! routing table and the virtual CPUs, and leaves delivery to the kernel.

use vstd::prelude::*;
use crate::abi::{KvmIrqLevel, KvmIrqRouting, KvmIrqfd, KvmMpState};
use crate::errno::{enoent, Error, Result, ENOENT};
use crate::irq::{
    assign_irqfd, carries_routes, deassign_irqfd, gsi_routing, irq_level, irqfd_assign,
    irqfd_deassign, IrqRoute,
};
use crate::kvm::HypervisorCap;
use crate::vcpu::{mp_state_of, raw_mp_state, KvmVcpu, MPState};

verus! {

/// The index of an event that the host services itself.
pub type IrqEventIndex = usize;

/// Capabilities of an interrupt controller.
#[derive(Clone, Copy, Debug, PartialEq, Eq, Structural)]
pub enum IrqChipCap {
    /// A timer that fires when the time stamp counter reaches a deadline.
    TscDeadlineTimer,
    /// The extended mode of the local interrupt controller.
    X2Apic,
}

/// Whether a virtual CPU can run.
#[derive(Clone, Copy, Debug, PartialEq, Eq, Structural)]
pub enum VcpuRunState {
    Runnable,
    Interrupted,
}

/// The routes that are left of `routes` once those of the line `gsi` are
/// dropped, in their order.
pub open spec fn routes_without(routes: Seq<IrqRoute>, gsi: u32) -> Seq<IrqRoute> {
    routes.filter(|r: IrqRoute| r.gsi != gsi)
}

/// The routing table after the line of `route` was routed anew: the routes
/// of the other lines, then `route`.
pub open spec fn routes_after_route(routes: Seq<IrqRoute>, route: IrqRoute) -> Seq<IrqRoute> {
    routes_without(routes, route.gsi).push(route)
}

/// The interrupt controller in the kernel, as the host sees it.
#[derive(Debug)]
pub struct KvmKernelIrqChip {
    vcpus: Vec<Option<KvmVcpu>>,
    routes: Vec<IrqRoute>,
}

impl KvmKernelIrqChip {
    /// Number of virtual CPUs that the controller has room for.
    pub closed spec fn num_vcpus(&self) -> nat {
        self.vcpus@.len()
    }

    /// The record of the virtual CPU that was added under `vcpu_id`, if one
    /// was.
    pub closed spec fn vcpu(&self, vcpu_id: int) -> Option<KvmVcpu> {
        if 0 <= vcpu_id < self.vcpus@.len() {
            self.vcpus@[vcpu_id]
        } else {
            None
        }
    }

    /// Whether a virtual CPU was added under `vcpu_id`.
    pub open spec fn has_vcpu(&self, vcpu_id: int) -> bool {
        self.vcpu(vcpu_id) is Some
    }

    /// The host's copy of the routing table.
    pub closed spec fn routes(&self) -> Seq<IrqRoute> {
        self.routes@
    }

    /// A controller with room for `num_vcpus` virtual CPUs, none added yet,
    /// and with the routing table `routes`.
    pub fn new(num_vcpus: usize, routes: Vec<IrqRoute>) -> (chip: KvmKernelIrqChip)
        ensures
            chip.num_vcpus() == num_vcpus,
            forall|id: int| chip.vcpu(id) is None,
            chip.routes() == routes@,
    {
        let mut vcpus: Vec<Option<KvmVcpu>> = Vec::new();
        let mut i: usize = 0;
        while i < num_vcpus
            invariant
                i <= num_vcpus,
                vcpus@.len() == i,
                forall|k: int| 0 <= k < i ==> vcpus@[k] is None,
            decreases num_vcpus - i,
        {
            vcpus.push(None);
            i += 1;
        }
        KvmKernelIrqChip { vcpus, routes }
    }

    /// Number of routes in the host's copy of the routing table.
    pub fn num_routes(&self) -> (n: usize)
        ensures
            n == self.routes().len(),
    {
        self.routes.len()
    }

    /// Adds a virtual CPU under `vcpu_id`: the controller keeps a second
    /// record of the virtual CPU given, which has its index and a run handle
    /// slot of its own, and which replaces what was there. The other virtual
    /// CPUs stay as they were. Fails with `ENOENT` where the controller has
    /// no room under that number, and changes nothing then.
    pub fn add_vcpu(&mut self, vcpu_id: usize, vcpu: &KvmVcpu) -> (r: Result<()>)
        ensures
            final(self).num_vcpus() == old(self).num_vcpus(),
            final(self).routes() == old(self).routes(),
            match r {
                Ok(_) => {
                    &&& vcpu_id < old(self).num_vcpus()
                    &&& final(self).vcpu(vcpu_id as int) matches Some(kept)
                    &&& kept.spec_id() == vcpu.spec_id()
                    &&& kept.bound() is None
                    &&& forall|id: int|
                        id != vcpu_id ==> final(self).vcpu(id) == old(self).vcpu(id)
                },
                Err(e) => {
                    &&& vcpu_id >= old(self).num_vcpus()
                    &&& e.errno == ENOENT
                    &&& forall|id: int| final(self).vcpu(id) == old(self).vcpu(id)
                },
            },
    {
        if vcpu_id >= self.vcpus.len() {
            return Err(Error::new(enoent()));
        }
        self.vcpus.set(vcpu_id, Some(vcpu.try_clone()));
        Ok(())
    }

    /// The index of the virtual CPU that was added under `vcpu_id`, if one
    /// was.
    pub fn vcpu_index(&self, vcpu_id: usize) -> (index: Option<usize>)
        ensures
            index == (match self.vcpu(vcpu_id as int) {
                Some(kept) => Some(kept.spec_id()),
                None => None::<usize>,
            }),
    {
        if vcpu_id >= self.vcpus.len() {
            return None;
        }
        match &self.vcpus[vcpu_id] {
            Some(kept) => Some(kept.id()),
            None => None,
        }
    }

    /// The request that makes the event `irq_event` trigger the line `irq`.
    pub fn register_irq_event(&self, irq: u32, irq_event: i32, resample_event: Option<i32>) -> (request:
        KvmIrqfd)
        ensures
            request == irqfd_assign(irq, irq_event, resample_event),
    {
        assign_irqfd(irq, irq_event, resample_event)
    }

    /// Says what registering an event came to, given the kernel's answer:
    /// its error, or no event index, since it is the kernel that services
    /// the event.
    pub fn irq_event_registered(&self, kernel: Result<()>) -> (r: Result<Option<IrqEventIndex>>)
        ensures
            r == (match kernel {
                Ok(_) => Ok::<Option<IrqEventIndex>, Error>(None),
                Err(e) => Err::<Option<IrqEventIndex>, Error>(e),
            }),
    {
        match kernel {
            Ok(_) => Ok(None),
            Err(e) => Err(e),
        }
    }

    /// The request that takes back what `register_irq_event` set up.
    pub fn unregister_irq_event(&self, irq: u32, irq_event: i32) -> (request: KvmIrqfd)
        ensures
            request == irqfd_deassign(irq, irq_event),
    {
        deassign_irqfd(irq, irq_event)
    }

    /// Builds the request that carries the host's routing table.
    fn routing_request(&self) -> (request: KvmIrqRouting)
        requires
            self.routes().len() <= u32::MAX,
        ensures
            carries_routes(request, self.routes()),
    {
        gsi_routing(self.routes.as_slice())
    }

    /// Routes an interrupt line: the route replaces every route that the
    /// line had. Returns the request that carries the new table to the
    /// kernel.
    pub fn route_irq(&mut self, route: IrqRoute) -> (request: KvmIrqRouting)
        requires
            old(self).routes().len() < u32::MAX,
        ensures
            final(self).routes() == routes_after_route(old(self).routes(), route),
            final(self).num_vcpus() == old(self).num_vcpus(),
            forall|id: int| final(self).vcpu(id) == old(self).vcpu(id),
            carries_routes(request, final(self).routes()),
    {
        let ghost before = self.routes@;
        let n: usize = self.routes.len();
        let mut kept: Vec<IrqRoute> = Vec::new();
        let mut i: usize = 0;
        while i < n
            invariant
                i <= n,
                n == self.routes@.len(),
                self.routes@ == before,
                kept@ == routes_without(before.subrange(0, i as int), route.gsi),
                kept@.len() <= i,
            decreases n - i,
        {
            let r: IrqRoute = self.routes[i];
            proof {
                let keep = |r: IrqRoute| r.gsi != route.gsi;
                let prefix = before.subrange(0, i as int);
                let next = before.subrange(0, i + 1);
                assert(next == prefix.push(before[i as int]));
                assert(next.drop_last() == prefix);
                reveal(Seq::filter);
                assert(next.filter(keep) == if keep(next.last()) {
                    prefix.filter(keep).push(next.last())
                } else {
                    prefix.filter(keep)
                });
            }
            if r.gsi != route.gsi {
                kept.push(r);
            }
            i += 1;
        }
        assert(before.subrange(0, n as int) == before);
        kept.push(route);
        self.routes = kept;
        self.routing_request()
    }

    /// Replaces the routing table by `routes`. Returns the request that
    /// carries the new table to the kernel.
    pub fn set_irq_routes(&mut self, routes: &[IrqRoute]) -> (request: KvmIrqRouting)
        requires
            routes@.len() <= u32::MAX,
        ensures
            final(self).routes() == routes@,
            final(self).num_vcpus() == old(self).num_vcpus(),
            forall|id: int| final(self).vcpu(id) == old(self).vcpu(id),
            carries_routes(request, routes@),
    {
        let n: usize = routes.len();
        let mut current: Vec<IrqRoute> = Vec::new();
        let mut i: usize = 0;
        while i < n
            invariant
                i <= n,
                n == routes@.len(),
                current@ == routes@.subrange(0, i as int),
            decreases n - i,
        {
            current.push(routes[i]);
            assert(routes@.subrange(0, i + 1) == routes@.subrange(0, i as int).push(
                routes@[i as int],
            ));
            i += 1;
        }
        assert(routes@.subrange(0, n as int) == routes@);
        self.routes = current;
        self.routing_request()
    }

    /// The events that the host has to wait for: none, since the kernel
    /// waits for them.
    pub fn irq_event_tokens(&self) -> (r: Result<Vec<(IrqEventIndex, u32, i32)>>)
        ensures
            r matches Ok(tokens) && tokens@.len() == 0,
    {
        Ok(Vec::new())
    }

    /// The request that raises or lowers the interrupt line `irq`.
    pub fn service_irq(&self, irq: u32, level: bool) -> (request: KvmIrqLevel)
        ensures
            request == (KvmIrqLevel { irq, level: if level { 1u32 } else { 0u32 } }),
    {
        irq_level(irq, level)
    }

    /// Services an event of the host. This controller has none, so nothing
    /// is done; a call is a mistake of the caller, who may want to report
    /// it.
    pub fn service_irq_event(&mut self, event_index: IrqEventIndex) -> (r: Result<()>)
        ensures
            r is Ok,
            final(self).routes() == old(self).routes(),
            final(self).num_vcpus() == old(self).num_vcpus(),
            forall|id: int| final(self).vcpu(id) == old(self).vcpu(id),
    {
        Ok(())
    }

    /// Broadcasts an end of interrupt. The kernel does that for this
    /// controller, so nothing is done; a call is a mistake of the caller.
    pub fn broadcast_eoi(&self, vector: u8) -> (r: Result<()>)
        ensures
            r is Ok,
    {
        Ok(())
    }

    /// Injects pending interrupts into a virtual CPU. The kernel does that
    /// for this controller, so nothing is done.
    pub fn inject_interrupts(&self, vcpu: &KvmVcpu) -> (r: Result<()>)
        ensures
            r is Ok,
    {
        Ok(())
    }

    /// Notes that a virtual CPU halted. The kernel keeps track of that for
    /// this controller, so nothing is done.
    pub fn halted(&self, vcpu_id: usize) {
    }

    /// Waits until a virtual CPU can run. With this controller it always
    /// can, as far as the host knows, since the kernel does the waiting.
    pub fn wait_until_runnable(&self, vcpu: &KvmVcpu) -> (r: Result<VcpuRunState>)
        ensures
            r == Ok::<VcpuRunState, Error>(VcpuRunState::Runnable),
    {
        Ok(VcpuRunState::Runnable)
    }

    /// Wakes the virtual CPUs that wait. With this controller none waits
    /// in the host, so nothing is done.
    pub fn kick_halted_vcpus(&self) {
    }

    /// Says what the multiprocessor state of the virtual CPU `vcpu_id` is,
    /// given what the kernel returned for it. Fails with `ENOENT` where no
    /// virtual CPU was added under that number, whatever the kernel said.
    pub fn get_mp_state(&self, vcpu_id: usize, kernel: Result<KvmMpState>) -> (r: Result<MPState>)
        ensures
            r == (if !self.has_vcpu(vcpu_id as int) {
                Err::<MPState, Error>(Error { errno: ENOENT })
            } else {
                match kernel {
                    Ok(raw) => Ok::<MPState, Error>(mp_state_of(raw.mp_state)),
                    Err(e) => Err::<MPState, Error>(e),
                }
            }),
    {
        if vcpu_id >= self.vcpus.len() || self.vcpus[vcpu_id].is_none() {
            return Err(Error::new(enoent()));
        }
        match kernel {
            Ok(raw) => Ok(MPState::from(&raw)),
            Err(e) => Err(e),
        }
    }

    /// The record that sets the multiprocessor state of the virtual CPU
    /// `vcpu_id` to `state`. Fails with `ENOENT` where no virtual CPU was
    /// added under that number.
    pub fn set_mp_state(&self, vcpu_id: usize, state: &MPState) -> (r: Result<KvmMpState>)
        ensures
            r == (if !self.has_vcpu(vcpu_id as int) {
                Err::<KvmMpState, Error>(Error { errno: ENOENT })
            } else {
                Ok::<KvmMpState, Error>(KvmMpState { mp_state: raw_mp_state(*state) })
            }),
    {
        if vcpu_id >= self.vcpus.len() || self.vcpus[vcpu_id].is_none() {
            return Err(Error::new(enoent()));
        }
        Ok(KvmMpState::from(state))
    }

    /// Finishes the set-up once all devices are registered. Nothing is left
    /// to do for this controller.
    pub fn finalize_devices(&mut self) -> (r: Result<()>)
        ensures
            r is Ok,
            final(self).routes() == old(self).routes(),
            final(self).num_vcpus() == old(self).num_vcpus(),
            forall|id: int| final(self).vcpu(id) == old(self).vcpu(id),
    {
        Ok(())
    }

    /// Handles events that were put off. This controller puts none off.
    pub fn process_delayed_irq_events(&mut self) -> (r: Result<()>)
        ensures
            r is Ok,
            final(self).routes() == old(self).routes(),
            final(self).num_vcpus() == old(self).num_vcpus(),
            forall|id: int| final(self).vcpu(id) == old(self).vcpu(id),
    {
        Ok(())
    }

    /// The capability of the hypervisor that decides whether the
    /// controller has the capability `c`, where one does.
    pub fn capability_to_check(c: IrqChipCap) -> (cap: Option<HypervisorCap>)
        ensures
            cap == (match c {
                IrqChipCap::TscDeadlineTimer => Some(HypervisorCap::TscDeadlineTimer),
                IrqChipCap::X2Apic => None::<HypervisorCap>,
            }),
    {
        match c {
            IrqChipCap::TscDeadlineTimer => Some(HypervisorCap::TscDeadlineTimer),
            IrqChipCap::X2Apic => None,
        }
    }

    /// Says whether the controller has the capability `c`: the deadline
    /// timer where the hypervisor has it, which `tsc_deadline_timer` tells,
    /// and the extended mode of the local controller always.
    pub fn check_capability(&self, c: IrqChipCap, tsc_deadline_timer: bool) -> (has: bool)
        ensures
            has == (match c {
                IrqChipCap::TscDeadlineTimer => tsc_deadline_timer,
                IrqChipCap::X2Apic => true,
            }),
    {
        match c {
            IrqChipCap::TscDeadlineTimer => tsc_deadline_timer,
            IrqChipCap::X2Apic => true,
        }
    }
}

/// After a line is routed, the table holds exactly one route for it, the
/// one given, and the routes of the other lines as they were.
pub proof fn lemma_route_replaces(routes: Seq<IrqRoute>, route: IrqRoute)
    ensures
        ({
            let after = routes_after_route(routes, route);
            &&& after.last() == route
            &&& forall|i: int|
                0 <= i < after.len() - 1 ==> (#[trigger] after[i]).gsi != route.gsi
                    && routes.contains(after[i])
            &&& forall|i: int|
                0 <= i < routes.len() && (#[trigger] routes[i]).gsi != route.gsi
                    ==> after.contains(routes[i])
        }),
{
    let keep = |r: IrqRoute| r.gsi != route.gsi;
    let kept = routes.filter(keep);
    let after = routes_after_route(routes, route);
    assert forall|i: int| 0 <= i < after.len() - 1 implies (#[trigger] after[i]).gsi != route.gsi
        && routes.contains(after[i]) by {
        assert(after[i] == kept[i]);
        routes.lemma_filter_pred(keep, i);
        assert(kept.contains(kept[i]));
        routes.lemma_filter_contains_rev(keep, kept[i]);
    }
    assert forall|i: int|
        0 <= i < routes.len() && (#[trigger] routes[i]).gsi != route.gsi implies after.contains(
        routes[i],
    ) by {
        assert(routes.contains(routes[i]));
        routes.lemma_filter_contains(keep, i);
        let j = choose|j: int| 0 <= j < kept.len() && kept[j] == routes[i];
        assert(after[j] == routes[i]);
    }
}

} // verus!
