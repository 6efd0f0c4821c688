[package]
name = "hypervisor"
version = "0.1.0"
edition = "2021"
publish = false

[dependencies]
gdbstub_arch = "0.1"
libc = "=0.2.191"
thiserror = "=1.0.69"
