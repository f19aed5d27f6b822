//! Device-path nodes: four header bytes (type, sub-type, little-endian length)
//! followed by the node's own data.

use vstd::prelude::*;

verus! {

pub const TYPE_MESSAGING: u8 = 0x03;

pub const TYPE_END: u8 = 0x7f;

pub const END_ENTIRE_DEVICE_PATH_SUBTYPE: u8 = 0xff;

pub const MSG_USB_DP: u8 = 0x05;

pub const MSG_USB_CLASS_DP: u8 = 0x0f;

pub const MSG_USB_WWID_DP: u8 = 0x10;

/// Size of a node header, which is also the size of an end node.
pub const DEVICE_PATH_HEADER_SIZE: usize = 4;

/// Size of a USB node: header, parent port, interface number.
pub const USB_DEVICE_PATH_SIZE: usize = 6;

/// Size of a USB class node.
pub const USB_CLASS_DEVICE_PATH_SIZE: usize = 11;

/// Size of the fixed part of a USB WWID node; the serial number follows it.
pub const USB_WWID_DEVICE_PATH_SIZE: usize = 10;

/// Offset of the serial number in a USB WWID node.
pub const MSG_USB_WWID_SERIAL_NUMBER_OFFSET: usize = 10;

/// Header of a device-path node.
#[derive(Clone, Copy, Debug, PartialEq, Eq, Structural)]
pub struct EfiDevicePathProtocol {
    pub node_type: u8,
    pub sub_type: u8,
    pub length: u16,
}

/// A USB class node: selects devices by vendor, product and class.
#[derive(Clone, Copy, Debug, PartialEq, Eq, Structural)]
pub struct UsbClassDevicePath {
    pub header: EfiDevicePathProtocol,
    pub vendor_id: u16,
    pub product_id: u16,
    pub device_class: u8,
    pub device_sub_class: u8,
    pub device_protocol: u8,
}

/// The fixed part of a USB WWID node: selects one device by its serial number.
#[derive(Clone, Copy, Debug, PartialEq, Eq, Structural)]
pub struct UsbWwidDevicePath {
    pub header: EfiDevicePathProtocol,
    pub interface_number: u16,
    pub vendor_id: u16,
    pub product_id: u16,
}

/// The value of two bytes in little-endian order.
pub open spec fn le16(low: u8, high: u8) -> u16 {
    (low + 256 * high) as u16
}

/// Returns the value of two bytes in little-endian order.
pub fn u16_from_le(low: u8, high: u8) -> (r: u16)
    ensures
        r == le16(low, high),
        r == low + 256 * high,
{
    low as u16 + 256u16 * (high as u16)
}

} // verus!
