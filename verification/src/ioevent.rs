//! Events that fire when the guest writes to a port or to memory-mapped
//! I/O, and the requests that bind them.

use vstd::prelude::*;
use crate::abi;
use crate::abi::KvmIoeventfd;
use crate::errno::Result;
use crate::vm::KvmVm;

verus! {

/// The address that an event listens at.
#[derive(Clone, Copy, Debug, PartialEq, Eq, Structural)]
pub enum IoEventAddress {
    /// An I/O port.
    Pio(u64),
    /// An address of memory-mapped I/O.
    Mmio(u64),
}

/// Which writes make an event fire: any, or those of one width, and of
/// these all or those of one value.
#[derive(Clone, Copy, Debug, PartialEq, Eq, Structural)]
pub enum Datamatch {
    AnyLength,
    U8(Option<u8>),
    U16(Option<u16>),
    U32(Option<u32>),
    U64(Option<u64>),
}

impl Datamatch {
    /// Whether a value is to be matched.
    pub open spec fn matches_value(self) -> bool {
        match self {
            Datamatch::AnyLength => false,
            Datamatch::U8(v) => v is Some,
            Datamatch::U16(v) => v is Some,
            Datamatch::U32(v) => v is Some,
            Datamatch::U64(v) => v is Some,
        }
    }

    /// The value to be matched; zero where none is.
    pub open spec fn value(self) -> u64 {
        match self {
            Datamatch::U8(Some(v)) => v as u64,
            Datamatch::U16(Some(v)) => v as u64,
            Datamatch::U32(Some(v)) => v as u64,
            Datamatch::U64(Some(v)) => v,
            _ => 0,
        }
    }

    /// The width in bytes of the writes to be matched; zero for any.
    pub open spec fn width(self) -> u32 {
        match self {
            Datamatch::AnyLength => 0,
            Datamatch::U8(_) => 1,
            Datamatch::U16(_) => 2,
            Datamatch::U32(_) => 4,
            Datamatch::U64(_) => 8,
        }
    }
}

/// The flags of an I/O event request: one bit each for a value to match,
/// for a port address, and for removal.
pub open spec fn ioeventfd_flags(addr: IoEventAddress, datamatch: Datamatch, deassign: bool) -> u32 {
    ((if datamatch.matches_value() {
        abi::KVM_IOEVENTFD_FLAG_DATAMATCH
    } else {
        0
    }) + (if addr is Pio {
        abi::KVM_IOEVENTFD_FLAG_PIO
    } else {
        0
    }) + (if deassign {
        abi::KVM_IOEVENTFD_FLAG_DEASSIGN
    } else {
        0
    })) as u32
}

/// The request that binds the event with descriptor `evt` to writes at
/// `addr`, or removes the binding.
pub open spec fn ioeventfd_request(
    evt: i32,
    addr: IoEventAddress,
    datamatch: Datamatch,
    deassign: bool,
) -> KvmIoeventfd {
    KvmIoeventfd {
        datamatch: datamatch.value(),
        addr: match addr {
            IoEventAddress::Pio(p) => p,
            IoEventAddress::Mmio(m) => m,
        },
        len: datamatch.width(),
        fd: evt,
        flags: ioeventfd_flags(addr, datamatch, deassign),
    }
}

impl KvmVm {
    /// The request that binds the event with descriptor `evt` to writes at
    /// `addr` that `datamatch` selects, or, with `deassign`, removes that
    /// binding.
    pub fn ioeventfd(
        &self,
        evt: i32,
        addr: IoEventAddress,
        datamatch: Datamatch,
        deassign: bool,
    ) -> (request: KvmIoeventfd)
        ensures
            request == ioeventfd_request(evt, addr, datamatch, deassign),
    {
        let (do_datamatch, datamatch_value, datamatch_len): (bool, u64, u32) = match datamatch {
            Datamatch::AnyLength => (false, 0, 0),
            Datamatch::U8(v) => match v {
                Some(u) => (true, u as u64, 1),
                None => (false, 0, 1),
            },
            Datamatch::U16(v) => match v {
                Some(u) => (true, u as u64, 2),
                None => (false, 0, 2),
            },
            Datamatch::U32(v) => match v {
                Some(u) => (true, u as u64, 4),
                None => (false, 0, 4),
            },
            Datamatch::U64(v) => match v {
                Some(u) => (true, u, 8),
                None => (false, 0, 8),
            },
        };
        let mut flags: u32 = 0;
        if deassign {
            flags = flags + abi::KVM_IOEVENTFD_FLAG_DEASSIGN;
        }
        if do_datamatch {
            flags = flags + abi::KVM_IOEVENTFD_FLAG_DATAMATCH;
        }
        let address: u64 = match addr {
            IoEventAddress::Pio(p) => {
                flags = flags + abi::KVM_IOEVENTFD_FLAG_PIO;
                p
            },
            IoEventAddress::Mmio(m) => m,
        };
        KvmIoeventfd {
            datamatch: datamatch_value,
            addr: address,
            len: datamatch_len,
            fd: evt,
            flags,
        }
    }

    /// The request that makes the event with descriptor `evt` fire on the
    /// guest's writes at `addr` that `datamatch` selects.
    pub fn register_ioevent(&self, evt: i32, addr: IoEventAddress, datamatch: Datamatch) -> (request:
        KvmIoeventfd)
        ensures
            request == ioeventfd_request(evt, addr, datamatch, false),
    {
        self.ioeventfd(evt, addr, datamatch, false)
    }

    /// The request that takes back what `register_ioevent` set up for the
    /// same event, address and selection.
    pub fn unregister_ioevent(&self, evt: i32, addr: IoEventAddress, datamatch: Datamatch) -> (request:
        KvmIoeventfd)
        ensures
            request == ioeventfd_request(evt, addr, datamatch, true),
    {
        self.ioeventfd(evt, addr, datamatch, true)
    }

    /// Delivers a write of the guest to the events bound at `addr`. The
    /// kernel does that by itself, so nothing is left to do here.
    pub fn handle_io_events(&self, addr: IoEventAddress, data: &[u8]) -> (r: Result<()>)
        ensures
            r is Ok,
    {
        Ok(())
    }
}

} // verus!
