//! A stub PCI device: one that shows up in enumeration with the identity it
//! was configured with and does nothing else. It serves to fill function 0
//! of a slot whose other functions are passed through to the guest.

use vstd::prelude::*;

verus! {

/// The place of a device function on the PCI bus.
#[derive(Clone, Copy, Debug, PartialEq, Eq, Structural)]
pub struct PciAddress {
    pub bus: u8,
    pub dev: u8,
    pub func: u8,
}

/// The class of a PCI device.
#[derive(Clone, Copy, Debug, PartialEq, Eq, Structural)]
pub enum PciClassCode {
    TooOld,
    MassStorage,
    NetworkController,
    DisplayController,
    MultimediaController,
    MemoryController,
    BridgeDevice,
    SimpleCommunicationController,
    BaseSystemPeripheral,
    InputDevice,
    DockingStation,
    Processor,
    SerialBusController,
    WirelessController,
    IntelligentIoController,
    EncryptionController,
    DataAcquisitionSignalProcessing,
    Other,
}

impl PciClassCode {
    /// The class code as the configuration space holds it.
    pub open spec fn register_value(self) -> u8 {
        match self {
            PciClassCode::TooOld => 0x00,
            PciClassCode::MassStorage => 0x01,
            PciClassCode::NetworkController => 0x02,
            PciClassCode::DisplayController => 0x03,
            PciClassCode::MultimediaController => 0x04,
            PciClassCode::MemoryController => 0x05,
            PciClassCode::BridgeDevice => 0x06,
            PciClassCode::SimpleCommunicationController => 0x07,
            PciClassCode::BaseSystemPeripheral => 0x08,
            PciClassCode::InputDevice => 0x09,
            PciClassCode::DockingStation => 0x0a,
            PciClassCode::Processor => 0x0b,
            PciClassCode::SerialBusController => 0x0c,
            PciClassCode::WirelessController => 0x0d,
            PciClassCode::IntelligentIoController => 0x0e,
            PciClassCode::EncryptionController => 0x0f,
            PciClassCode::DataAcquisitionSignalProcessing => 0x10,
            PciClassCode::Other => 0xff,
        }
    }

    /// Returns the class code as the configuration space holds it.
    pub fn get_register_value(&self) -> (value: u8)
        ensures
            value == self.register_value(),
    {
        match self {
            PciClassCode::TooOld => 0x00,
            PciClassCode::MassStorage => 0x01,
            PciClassCode::NetworkController => 0x02,
            PciClassCode::DisplayController => 0x03,
            PciClassCode::MultimediaController => 0x04,
            PciClassCode::MemoryController => 0x05,
            PciClassCode::BridgeDevice => 0x06,
            PciClassCode::SimpleCommunicationController => 0x07,
            PciClassCode::BaseSystemPeripheral => 0x08,
            PciClassCode::InputDevice => 0x09,
            PciClassCode::DockingStation => 0x0a,
            PciClassCode::Processor => 0x0b,
            PciClassCode::SerialBusController => 0x0c,
            PciClassCode::WirelessController => 0x0d,
            PciClassCode::IntelligentIoController => 0x0e,
            PciClassCode::EncryptionController => 0x0f,
            PciClassCode::DataAcquisitionSignalProcessing => 0x10,
            PciClassCode::Other => 0xff,
        }
    }
}

/// The layout of a device's configuration header.
#[derive(Clone, Copy, Debug, PartialEq, Eq, Structural)]
pub enum PciHeaderType {
    Device,
    Bridge,
}

/// Why a PCI device could not be set up.
#[derive(Clone, Copy, Debug, PartialEq, Eq, Structural)]
pub enum PciDeviceError {
    /// The address that the device asked for could not be reserved.
    PciAllocationFailed,
}

/// The identity that a stub device presents.
#[derive(Clone, Copy, Debug, PartialEq, Eq, Structural)]
pub struct StubPciParameters {
    pub address: PciAddress,
    pub vendor_id: u16,
    pub device_id: u16,
    pub class: PciClassCode,
    pub subclass: u8,
    pub programming_interface: u8,
    pub multifunction: bool,
    pub subsystem_device_id: u16,
    pub subsystem_vendor_id: u16,
    pub revision_id: u8,
}

/// The identification part of a configuration header.
#[derive(Clone, Copy, Debug, PartialEq, Eq, Structural)]
pub struct PciConfiguration {
    pub vendor_id: u16,
    pub device_id: u16,
    pub class_code: PciClassCode,
    pub subclass: u8,
    pub programming_interface: u8,
    pub header_type: PciHeaderType,
    pub multifunction: bool,
    pub subsystem_device_id: u16,
    pub subsystem_vendor_id: u16,
    pub revision_id: u8,
}

/// A PCI device without resources or behaviour.
#[derive(Clone, Copy, Debug, PartialEq, Eq, Structural)]
pub struct StubPciDevice {
    requested_address: PciAddress,
    assigned_address: Option<PciAddress>,
    config_regs: PciConfiguration,
}

/// The configuration header of a stub device with the identity `config`: an
/// ordinary device header that carries every value of `config` unchanged.
pub open spec fn stub_configuration(config: StubPciParameters) -> PciConfiguration {
    PciConfiguration {
        vendor_id: config.vendor_id,
        device_id: config.device_id,
        class_code: config.class,
        subclass: config.subclass,
        programming_interface: config.programming_interface,
        header_type: PciHeaderType::Device,
        multifunction: config.multifunction,
        subsystem_device_id: config.subsystem_device_id,
        subsystem_vendor_id: config.subsystem_vendor_id,
        revision_id: config.revision_id,
    }
}

impl StubPciDevice {
    /// The address that the device was configured to sit at.
    pub closed spec fn requested_address(&self) -> PciAddress {
        self.requested_address
    }

    /// The address that was reserved for the device, once one was.
    pub closed spec fn assigned_address(&self) -> Option<PciAddress> {
        self.assigned_address
    }

    /// The device's configuration header.
    pub closed spec fn configuration(&self) -> PciConfiguration {
        self.config_regs
    }

    /// A stub device with the identity `config`, not yet placed on the bus.
    pub fn new(config: &StubPciParameters) -> (device: StubPciDevice)
        ensures
            device.requested_address() == config.address,
            device.assigned_address() is None,
            device.configuration() == stub_configuration(*config),
    {
        let config_regs = PciConfiguration {
            vendor_id: config.vendor_id,
            device_id: config.device_id,
            class_code: config.class,
            subclass: config.subclass,
            programming_interface: config.programming_interface,
            header_type: PciHeaderType::Device,
            multifunction: config.multifunction,
            subsystem_device_id: config.subsystem_device_id,
            subsystem_vendor_id: config.subsystem_vendor_id,
            revision_id: config.revision_id,
        };
        StubPciDevice {
            requested_address: config.address,
            assigned_address: None,
            config_regs,
        }
    }

    /// The name under which the device appears in diagnostics.
    pub fn debug_label(&self) -> (label: String)
        ensures
            label@ == "Stub"@,
    {
        "Stub".to_string()
    }

    /// The address that still has to be reserved for the device: the one it
    /// was configured with, until one is assigned.
    pub fn address_to_reserve(&self) -> (address: Option<PciAddress>)
        ensures
            address == (if self.assigned_address() is None {
                Some(self.requested_address())
            } else {
                None::<PciAddress>
            }),
    {
        if self.assigned_address.is_none() {
            Some(self.requested_address)
        } else {
            None
        }
    }

    /// Places the device on the bus. `reserved` says whether the allocator
    /// granted the address named by `address_to_reserve`; it is not looked
    /// at once an address is assigned. The device gets its configured
    /// address or, if that was refused, none.
    pub fn allocate_address(&mut self, reserved: bool) -> (r: core::result::Result<
        PciAddress,
        PciDeviceError,
    >)
        ensures
            final(self).requested_address() == old(self).requested_address(),
            final(self).configuration() == old(self).configuration(),
            final(self).assigned_address() == (if old(self).assigned_address() is Some {
                old(self).assigned_address()
            } else if reserved {
                Some(old(self).requested_address())
            } else {
                None::<PciAddress>
            }),
            r == (match final(self).assigned_address() {
                Some(address) => Ok::<PciAddress, PciDeviceError>(address),
                None => Err::<PciAddress, PciDeviceError>(PciDeviceError::PciAllocationFailed),
            }),
    {
        if self.assigned_address.is_none() {
            if reserved {
                self.assigned_address = Some(self.requested_address);
            }
        }
        match self.assigned_address {
            Some(address) => Ok(address),
            None => Err(PciDeviceError::PciAllocationFailed),
        }
    }

    /// Returns the device's configuration header.
    pub fn get_configuration(&self) -> (config: PciConfiguration)
        ensures
            config == self.configuration(),
    {
        self.config_regs
    }
}

} // verus!
