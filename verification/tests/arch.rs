use hypervisor::memory::{GuestAddress, GuestMemory, GuestMemoryRegion};
use hypervisor::pci::{
    PciAddress, PciClassCode, PciDeviceError, PciHeaderType, StubPciDevice, StubPciParameters,
};
use hypervisor::x86_64::{
    add_e820_entry, arch_memory_regions, bios_start, configure_system, low_u32, BootE820Entry,
    BootParams, Error, SetupHeader, X8664arch, E820_RAM, FIRST_ADDR_PAST_32BITS,
};

fn arch_blank_params() -> BootParams {
    BootParams {
        hdr: SetupHeader {
            type_of_loader: 0,
            boot_flag: 0,
            header: 0,
            cmd_line_ptr: 0,
            cmdline_size: 0,
            kernel_alignment: 0,
            setup_data: 0,
            ramdisk_image: 0,
            ramdisk_size: 0,
            initrd_addr_max: 0,
        },
        e820_entries: 0,
        e820_table: [BootE820Entry { addr: 0, size: 0, type_: 0 }; 128],
    }
}

fn arch_guest_memory(ranges: &[(GuestAddress, u64)]) -> GuestMemory {
    GuestMemory::new(
        ranges
            .iter()
            .map(|(base, size)| GuestMemoryRegion {
                guest_base: *base,
                size: *size,
                host_addr: 0x7f00_0000_0000 + base.offset(),
            })
            .collect(),
    )
    .unwrap()
}

#[test]
fn regions_lt_4gb_nobios() {
    let regions = arch_memory_regions(1u64 << 29, /* bios_size */ None);
    assert_eq!(1, regions.len());
    assert_eq!(GuestAddress(0), regions[0].0);
    assert_eq!(1u64 << 29, regions[0].1);
}

#[test]
fn regions_gt_4gb_nobios() {
    let regions = arch_memory_regions((1u64 << 32) + 0x8000, /* bios_size */ None);
    assert_eq!(2, regions.len());
    assert_eq!(GuestAddress(0), regions[0].0);
    assert_eq!(GuestAddress(1u64 << 32), regions[1].0);
}

#[test]
fn regions_lt_4gb_bios() {
    let bios_len = 1 << 20;
    let regions = arch_memory_regions(1u64 << 29, Some(bios_len));
    assert_eq!(2, regions.len());
    assert_eq!(GuestAddress(0), regions[0].0);
    assert_eq!(1u64 << 29, regions[0].1);
    assert_eq!(
        GuestAddress(FIRST_ADDR_PAST_32BITS - bios_len),
        regions[1].0
    );
    assert_eq!(bios_len, regions[1].1);
}

#[test]
fn regions_gt_4gb_bios() {
    let bios_len = 1 << 20;
    let regions = arch_memory_regions((1u64 << 32) + 0x8000, Some(bios_len));
    assert_eq!(3, regions.len());
    assert_eq!(GuestAddress(0), regions[0].0);
    assert_eq!(
        GuestAddress(FIRST_ADDR_PAST_32BITS - bios_len),
        regions[1].0
    );
    assert_eq!(bios_len, regions[1].1);
    assert_eq!(GuestAddress(1u64 << 32), regions[2].0);
}

#[test]
fn regions_eq_4gb_nobios() {
    // Test with size = 3328, which is exactly 4 GiB minus the size of the gap (768 MiB).
    let regions = arch_memory_regions(3328 << 20, /* bios_size */ None);
    assert_eq!(1, regions.len());
    assert_eq!(GuestAddress(0), regions[0].0);
    assert_eq!(3328 << 20, regions[0].1);
}

#[test]
fn regions_eq_4gb_bios() {
    // Test with size = 3328, which is exactly 4 GiB minus the size of the gap (768 MiB).
    let bios_len = 1 << 20;
    let regions = arch_memory_regions(3328 << 20, Some(bios_len));
    assert_eq!(2, regions.len());
    assert_eq!(GuestAddress(0), regions[0].0);
    assert_eq!(3328 << 20, regions[0].1);
    assert_eq!(
        GuestAddress(FIRST_ADDR_PAST_32BITS - bios_len),
        regions[1].0
    );
    assert_eq!(bios_len, regions[1].1);
}

#[test]
fn regions_above_the_gap_hold_the_rest() {
    let regions = arch_memory_regions((1u64 << 32) + 0x8000, None);
    assert_eq!(regions[0].1, 3328 << 20);
    assert_eq!(regions[1].1, (1u64 << 32) + 0x8000 - (3328 << 20));
    let regions = arch_memory_regions((3328 << 20) + 1, None);
    assert_eq!(regions, vec![(GuestAddress(0), 3328 << 20), (GuestAddress(1 << 32), 1)]);
}

#[test]
fn bios_start_addresses() {
    assert_eq!(bios_start(0), GuestAddress(1 << 32));
    assert_eq!(bios_start(1 << 20), GuestAddress(0xfff0_0000));
    assert_eq!(bios_start(1 << 32), GuestAddress(0));
}

#[test]
fn guest_memory_layout_with_and_without_bios() {
    assert_eq!(
        X8664arch::guest_memory_layout(1 << 29, None),
        vec![(GuestAddress(0), 1 << 29)]
    );
    assert_eq!(
        X8664arch::guest_memory_layout(1 << 29, Some(1 << 20)),
        vec![(GuestAddress(0), 1 << 29), (GuestAddress(0xfff0_0000), 1 << 20)]
    );
    assert_eq!(
        X8664arch::guest_memory_layout(1 << 29, Some(1 << 32)),
        vec![(GuestAddress(0), 1 << 29), (GuestAddress(0), 1 << 32)]
    );
}

#[test]
fn high_mmio_area() {
    // Below four gigabytes of memory the area starts at four gigabytes.
    assert_eq!(X8664arch::get_high_mmio_base(1 << 29), 1 << 32);
    assert_eq!(X8664arch::get_high_mmio_base(1 << 32), 1 << 32);
    // Above, at the next boundary of two megabytes.
    assert_eq!(X8664arch::get_high_mmio_base((1 << 32) + 1), (1 << 32) + (2 << 20));
    assert_eq!(X8664arch::get_high_mmio_base((1 << 32) + (2 << 20)), (1 << 32) + (2 << 20));
    assert_eq!(X8664arch::get_phys_max_addr(36), (1 << 36) - 1);
    assert_eq!(X8664arch::get_phys_max_addr(0), 0);
    assert_eq!(X8664arch::get_phys_max_addr(63), (1 << 63) - 1);
    assert_eq!(
        X8664arch::get_high_mmio_size(1 << 29, (1 << 36) - 1),
        (1 << 36) - (1 << 32)
    );
    // The area never reaches beyond 64 terabytes.
    assert_eq!(
        X8664arch::get_high_mmio_size(1 << 29, (1 << 52) - 1),
        (1 << 46) - (1 << 32)
    );
}

#[test]
fn memory_sizes_for_the_clock() {
    assert_eq!(X8664arch::memory_below_and_above_4g(1 << 29), (1 << 29, 0));
    assert_eq!(
        X8664arch::memory_below_and_above_4g((1 << 32) + 0x8000),
        (3328 << 20, (1u64 << 32) + 0x8000 - (3328 << 20))
    );
}

#[test]
fn low_32_bits() {
    assert_eq!(low_u32(0), 0);
    assert_eq!(low_u32(0xffff_ffff), 0xffff_ffff);
    assert_eq!(low_u32(0x1_0000_0000), 0);
    assert_eq!(low_u32(0x1234_5678_9abc_def0), 0x9abc_def0);
}

#[test]
fn e820_entries_fill_the_table() {
    let mut params = arch_blank_params();
    for i in 0..128u64 {
        add_e820_entry(&mut params, i * 0x1000, 0x1000, E820_RAM).unwrap();
    }
    assert_eq!(params.e820_entries, 128);
    assert_eq!(
        params.e820_table[127],
        BootE820Entry { addr: 127 * 0x1000, size: 0x1000, type_: 1 }
    );
    let full = params;
    assert_eq!(
        add_e820_entry(&mut params, 0, 1, E820_RAM).unwrap_err(),
        Error::E820Configuration
    );
    assert_eq!(params, full);
}

#[test]
fn configure_system_small_guest() {
    let gm = arch_guest_memory(&arch_memory_regions(1 << 29, None));
    let params = configure_system(
        &gm,
        GuestAddress(0x20_0000),
        GuestAddress(0x2_0000),
        18,
        None,
        None,
        arch_blank_params(),
    )
    .unwrap();
    assert_eq!(params.hdr.type_of_loader, 0xff);
    assert_eq!(params.hdr.boot_flag, 0xaa55);
    assert_eq!(params.hdr.header, 0x5372_6448);
    assert_eq!(params.hdr.cmd_line_ptr, 0x2_0000);
    assert_eq!(params.hdr.cmdline_size, 18);
    assert_eq!(params.hdr.kernel_alignment, 0x100_0000);
    assert_eq!(params.hdr.setup_data, 0);
    assert_eq!(params.hdr.ramdisk_image, 0);
    assert_eq!(params.e820_entries, 2);
    assert_eq!(
        params.e820_table[0],
        BootE820Entry { addr: 0, size: 0x9fc00, type_: 1 }
    );
    assert_eq!(
        params.e820_table[1],
        BootE820Entry { addr: 0x20_0000, size: (1 << 29) - 0x20_0000, type_: 1 }
    );
    assert_eq!(params.e820_table[2], BootE820Entry { addr: 0, size: 0, type_: 0 });
}

#[test]
fn configure_system_large_guest() {
    let size = (1u64 << 32) + 0x8000;
    let gm = arch_guest_memory(&arch_memory_regions(size, None));
    let params = configure_system(
        &gm,
        GuestAddress(0x20_0000),
        GuestAddress(0x2_0000),
        1,
        Some(GuestAddress(0x30_0000)),
        Some((GuestAddress(0x1000_0000), 0x40_0000)),
        arch_blank_params(),
    )
    .unwrap();
    assert_eq!(params.hdr.setup_data, 0x30_0000);
    assert_eq!(params.hdr.ramdisk_image, 0x1000_0000);
    assert_eq!(params.hdr.ramdisk_size, 0x40_0000);
    assert_eq!(params.e820_entries, 3);
    assert_eq!(
        params.e820_table[1],
        BootE820Entry { addr: 0x20_0000, size: 0xd000_0000 - 0x20_0000, type_: 1 }
    );
    // The memory ends where the part above four gigabytes ends.
    let above = size - 0xd000_0000;
    assert_eq!(
        params.e820_table[2],
        BootE820Entry { addr: 1 << 32, size: above, type_: 1 }
    );
}

#[test]
fn configure_system_errors() {
    let gm = arch_guest_memory(&arch_memory_regions(1 << 29, None));
    let mut params = arch_blank_params();
    params.e820_entries = 127;
    assert_eq!(
        configure_system(&gm, GuestAddress(0x20_0000), GuestAddress(0x2_0000), 1, None, None, params)
            .unwrap_err(),
        Error::E820Configuration
    );
    // A guest too small for the boot parameters.
    let small = arch_guest_memory(&[(GuestAddress(0), 0x8000)]);
    assert_eq!(
        configure_system(
            &small,
            GuestAddress(0x1000),
            GuestAddress(0x2000),
            1,
            None,
            None,
            arch_blank_params()
        )
        .unwrap_err(),
        Error::ZeroPagePastRamEnd
    );
    let fits = arch_guest_memory(&[(GuestAddress(0), 0x8001)]);
    assert!(configure_system(
        &fits,
        GuestAddress(0x1000),
        GuestAddress(0x2000),
        1,
        None,
        None,
        arch_blank_params()
    )
    .is_ok());
}

fn arch_stub_parameters() -> StubPciParameters {
    StubPciParameters {
        address: PciAddress { bus: 0, dev: 3, func: 0 },
        vendor_id: 0x1234,
        device_id: 0x5678,
        class: PciClassCode::MultimediaController,
        subclass: 0x01,
        programming_interface: 0x02,
        multifunction: true,
        subsystem_device_id: 0x9abc,
        subsystem_vendor_id: 0xdef0,
        revision_id: 0x07,
    }
}

#[test]
fn stub_device_presents_its_parameters() {
    let config = arch_stub_parameters();
    let device = StubPciDevice::new(&config);
    assert_eq!(device.debug_label(), "Stub");
    let header = device.get_configuration();
    assert_eq!(header.vendor_id, 0x1234);
    assert_eq!(header.device_id, 0x5678);
    assert_eq!(header.class_code, PciClassCode::MultimediaController);
    assert_eq!(header.subclass, 0x01);
    assert_eq!(header.programming_interface, 0x02);
    assert_eq!(header.header_type, PciHeaderType::Device);
    assert!(header.multifunction);
    assert_eq!(header.subsystem_device_id, 0x9abc);
    assert_eq!(header.subsystem_vendor_id, 0xdef0);
    assert_eq!(header.revision_id, 0x07);
    assert_eq!(device.address_to_reserve(), Some(config.address));
}

#[test]
fn stub_device_allocates_its_address_once() {
    let config = arch_stub_parameters();
    let mut device = StubPciDevice::new(&config);
    assert_eq!(
        device.allocate_address(false).unwrap_err(),
        PciDeviceError::PciAllocationFailed
    );
    assert_eq!(device.address_to_reserve(), Some(config.address));
    assert_eq!(device.allocate_address(true).unwrap(), config.address);
    assert_eq!(device.address_to_reserve(), None);
    // Once placed it stays placed, whatever the allocator says later.
    assert_eq!(device.allocate_address(false).unwrap(), config.address);
}

#[test]
fn pci_class_codes() {
    assert_eq!(PciClassCode::TooOld.get_register_value(), 0x00);
    assert_eq!(PciClassCode::MassStorage.get_register_value(), 0x01);
    assert_eq!(PciClassCode::BridgeDevice.get_register_value(), 0x06);
    assert_eq!(PciClassCode::DataAcquisitionSignalProcessing.get_register_value(), 0x10);
    assert_eq!(PciClassCode::Other.get_register_value(), 0xff);
}
