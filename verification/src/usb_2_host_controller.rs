//! Values of the USB 2 host-controller protocol.

use vstd::prelude::*;

verus! {

pub const EFI_USB_SPEED_FULL: u8 = 0;

pub const EFI_USB_SPEED_LOW: u8 = 1;

pub const EFI_USB_SPEED_HIGH: u8 = 2;

pub const EFI_USB_SPEED_SUPER: u8 = 3;

pub const USB_PORT_STAT_CONNECTION: u16 = 0x0001;

pub const USB_PORT_STAT_ENABLE: u16 = 0x0002;

pub const USB_PORT_STAT_OVERCURRENT: u16 = 0x0008;

pub const USB_PORT_STAT_RESET: u16 = 0x0010;

pub const USB_PORT_STAT_LOW_SPEED: u16 = 0x0200;

pub const USB_PORT_STAT_HIGH_SPEED: u16 = 0x0400;

pub const USB_PORT_STAT_SUPER_SPEED: u16 = 0x0800;

pub const USB_PORT_STAT_C_CONNECTION: u16 = 0x0001;

pub const USB_PORT_STAT_C_ENABLE: u16 = 0x0002;

pub const USB_PORT_STAT_C_SUSPEND: u16 = 0x0004;

pub const USB_PORT_STAT_C_OVERCURRENT: u16 = 0x0008;

pub const USB_PORT_STAT_C_RESET: u16 = 0x0010;

/// Direction of the data stage of a control transfer.
#[derive(Clone, Copy, Debug, PartialEq, Eq, Structural)]
pub enum UsbDataDirection {
    In,
    Out,
    NoData,
}

/// The eight bytes of a control transfer's setup stage.
#[derive(Clone, Copy, Debug, PartialEq, Eq, Structural)]
pub struct UsbDeviceRequest {
    pub request_type: u8,
    pub request: u8,
    pub value: u16,
    pub index: u16,
    pub length: u16,
}

/// State of a hub port and the changes that the hub reports for it.
#[derive(Clone, Copy, Debug, PartialEq, Eq, Structural)]
pub struct UsbPortStatus {
    pub port_status: u16,
    pub port_change_status: u16,
}

/// A port feature that can be set or cleared.
#[derive(Clone, Copy, Debug, PartialEq, Eq, Structural)]
pub enum UsbPortFeature {
    Enable,
    Suspend,
    Reset,
    Power,
    Owner,
    ConnectChange,
    EnableChange,
    SuspendChange,
    OverCurrentChange,
    ResetChange,
    /// Of SuperSpeed hubs only.
    LinkStateChange,
    /// Of SuperSpeed hubs only.
    WarmResetChange,
}

impl UsbPortFeature {
    /// The feature selector that goes over the wire.
    pub open spec fn selector(self) -> u16 {
        match self {
            UsbPortFeature::Enable => 1,
            UsbPortFeature::Suspend => 2,
            UsbPortFeature::Reset => 4,
            UsbPortFeature::Power => 8,
            UsbPortFeature::Owner => 13,
            UsbPortFeature::ConnectChange => 16,
            UsbPortFeature::EnableChange => 17,
            UsbPortFeature::SuspendChange => 18,
            UsbPortFeature::OverCurrentChange => 19,
            UsbPortFeature::ResetChange => 20,
            UsbPortFeature::LinkStateChange => 25,
            UsbPortFeature::WarmResetChange => 29,
        }
    }

    /// Returns the feature selector.
    pub fn code(self) -> (r: u16)
        ensures
            r == self.selector(),
    {
        match self {
            UsbPortFeature::Enable => 1,
            UsbPortFeature::Suspend => 2,
            UsbPortFeature::Reset => 4,
            UsbPortFeature::Power => 8,
            UsbPortFeature::Owner => 13,
            UsbPortFeature::ConnectChange => 16,
            UsbPortFeature::EnableChange => 17,
            UsbPortFeature::SuspendChange => 18,
            UsbPortFeature::OverCurrentChange => 19,
            UsbPortFeature::ResetChange => 20,
            UsbPortFeature::LinkStateChange => 25,
            UsbPortFeature::WarmResetChange => 29,
        }
    }
}

/// The hub and port through which a high-speed hub talks to a slower device.
#[derive(Clone, Copy, Debug, PartialEq, Eq, Structural)]
pub struct Usb2HcTransactionTranslator {
    pub translator_hub_address: u8,
    pub translator_port_number: u8,
}

/// A control transfer that is ready to be handed to the host controller. `length`
/// is the size of the buffer of the data stage.
#[derive(Clone, Copy, Debug, PartialEq, Eq, Structural)]
pub struct UsbControlTransfer {
    pub address: u8,
    pub speed: u8,
    pub max_packet: usize,
    pub request: UsbDeviceRequest,
    pub direction: UsbDataDirection,
    pub length: usize,
    pub timeout: usize,
    pub translator: Usb2HcTransactionTranslator,
}

/// A bulk or synchronous interrupt transfer with one endpoint.
#[derive(Clone, Copy, Debug, PartialEq, Eq, Structural)]
pub struct UsbEndpointTransfer {
    pub address: u8,
    pub endpoint: u8,
    pub speed: u8,
    pub max_packet: usize,
    pub toggle: u8,
    pub timeout: usize,
    pub translator: Usb2HcTransactionTranslator,
}

} // verus!
