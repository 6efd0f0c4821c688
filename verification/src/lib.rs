//! Host-side control plane of a virtual machine monitor that runs its guests
//! on the kernel's virtual machine facility.
//!
//! The crate keeps the books and takes the decisions: which memory slot a
//! mapping gets, which thread may run a virtual CPU, what an exit of the
//! guest means, how interrupts are routed. It does no system call. Every
//! request to the kernel leaves the crate as a plain record for the caller
//! to send, and every answer of the kernel comes back in as a plain value.
//!
//! - [`errno`]: error numbers.
//! - [`abi`]: the numbers and records of the kernel interface.
//! - [`memory`], [`slots`], [`vm`]: guest memory and its slots.
//! - [`vcpu`]: run handles, exits, pending requests, multiprocessor states.
//! - [`irq`], [`ioevent`], [`irqchip`]: interrupt routing and events.
//! - [`kvm`]: the hypervisor device and capabilities.
//! - [`x86_64`], [`gdb`], [`pci`]: the memory map of an x86-64 guest,
//!   debugger support, and the stub PCI device.

pub mod abi;
pub mod errno;
pub mod gdb;
pub mod ioevent;
pub mod irq;
pub mod irqchip;
pub mod kvm;
pub mod memory;
pub mod pci;
pub mod slots;
pub mod vcpu;
pub mod vm;
pub mod x86_64;
