//! Constants and state of the USB bus.

use crate::device_path::EfiDevicePathProtocol;
use crate::task::Tpl;
use crate::usb_2_host_controller::Usb2HcTransactionTranslator;
use crate::usb_desc::{ConfigDescriptor, UsbDeviceDesc, UsbEndpointDesc, UsbInterfaceDesc};
use vstd::arithmetic::power2::pow2;
use vstd::prelude::*;

verus! {

pub const USB_MAX_LANG_ID: usize = 16;

pub const USB_MAX_INTERFACE: usize = 16;

pub const USB_MAX_DEVICES: usize = 128;

/// Number of slots in the device table: one for each device address.
pub const USB_DEVICE_SLOTS: usize = 256;

pub const USB_BUS_1_MILLISECOND: u64 = 1_000;

/// Polling interval of the root hub, in units of 100 ns.
pub const USB_ROOTHUB_POLL_INTERVAL: u64 = 100 * 10_000;

/// Polling interval of a hub, in milliseconds.
pub const USB_HUB_POLL_INTERVAL: u64 = 64;

/// Smallest number of enumeration attempts.
pub const USB_ENUM_POLL_MINIMUM_ATTEMPTS: u8 = 6;

/// Largest number of enumeration attempts that is counted.
pub const USB_ENUM_POLL_MAXIMUM_ATTEMPTS: u8 = 200;

/// Wait for a port to become stable.
pub const USB_WAIT_PORT_STABLE_STALL: u64 = 100 * USB_BUS_1_MILLISECOND;

/// Wait between two looks at a port's status.
pub const USB_WAIT_PORT_STS_CHANGE_STALL: u64 = 100;

/// Wait after a device was given its address.
pub const USB_SET_DEVICE_ADDRESS_STALL: u64 = 2 * USB_BUS_1_MILLISECOND;

/// Wait before the maximum packet size is asked for again.
pub const USB_RETRY_MAX_PACK_SIZE_STALL: u64 = 100 * USB_BUS_1_MILLISECOND;

/// Unit of a hub's power-on delay.
pub const USB_SET_PORT_POWER_STALL: u64 = 2 * USB_BUS_1_MILLISECOND;

/// Length of a reset pulse on a hub port and on a root-hub port.
pub const USB_SET_PORT_RESET_STALL: u64 = 20 * USB_BUS_1_MILLISECOND;

pub const USB_SET_ROOT_PORT_RESET_STALL: u64 = 50 * USB_BUS_1_MILLISECOND;

/// Recovery time after a reset.
pub const USB_SET_PORT_RECOVERY_STALL: u64 = 10 * USB_BUS_1_MILLISECOND;

/// Wait after a root-hub port's reset was cleared.
pub const USB_CLR_ROOT_PORT_RESET_STALL: u64 = 20 * USB_BUS_1_MILLISECOND;

/// Wait after a root-hub port was enabled.
pub const USB_SET_ROOT_PORT_ENABLE_STALL: u64 = 20 * USB_BUS_1_MILLISECOND;

/// Timeout of a device request, in milliseconds.
pub const USB_GENERAL_DEVICE_REQUEST_TIMEOUT: u32 = 500;

/// Timeout of a clear-feature request, in milliseconds.
pub const USB_CLEAR_FEATURE_REQUEST_TIMEOUT: u32 = 10;

/// The task priority level at which the bus serves its drivers, so that nothing else
/// changes its state meanwhile.
pub const USB_BUS_TPL: Tpl = Tpl::Notify;

/// `USBI`
pub const USB_INTERFACE_SIGNATURE: u64 = 0x4942_5355;

/// `USBB`
pub const USB_BUS_SIGNATURE: u64 = 0x4242_5355;

/// `dpli`
pub const DEVICE_PATH_LIST_ITEM_SIGNATURE: u64 = 0x696c_7064;

pub const USB_US_LAND_ID: u16 = 0x0409;

/// Returns the signature that four characters spell, the first in the lowest byte.
pub fn signature(bytes: &[u8; 4]) -> (r: u64)
    ensures
        r == bytes[0] + 0x100 * bytes[1] + 0x1_0000 * bytes[2] + 0x100_0000 * bytes[3],
{
    bytes[0] as u64 + 0x100u64 * (bytes[1] as u64) + 0x1_0000u64 * (bytes[2] as u64) + 0x100_0000u64
        * (bytes[3] as u64)
}

/// Returns the word whose only set bit is `bit`.
pub fn usb_bit(bit: u32) -> (r: usize)
    requires
        bit < usize::BITS,
    ensures
        r == pow2(bit as nat),
{
    proof {
        vstd::bits::lemma_usize_pow2_no_overflow(bit as nat);
        vstd::bits::lemma_usize_shl_is_mul(1usize, bit as usize);
    }
    1usize << bit
}

/// Indicates whether every bit of `bit` is set in `data`.
pub fn usb_bit_is_set(data: usize, bit: usize) -> (r: bool)
    ensures
        r == (data & bit == bit),
{
    data & bit == bit
}

/// The private protocol by which a USB bus is found again.
#[derive(Clone, Copy, Debug, PartialEq, Eq, Structural)]
pub struct EfiUsbBusProtocol {
    pub reserved: u64,
}

/// Names one interface of one device on the bus.
#[derive(Clone, Copy, Debug, PartialEq, Eq, Structural)]
pub struct InterfaceId {
    pub device: u8,
    pub index: u8,
}

/// The set of port operations that a hub answers to: those of a hub device, which
/// go over the bus, or those of the root hub, which the host controller serves.
#[derive(Clone, Copy, Debug, PartialEq, Eq, Structural)]
pub enum UsbHubApi {
    Hub,
    RootHub,
}

/// A device on the bus. It may have several separately working interfaces.
#[derive(Debug)]
pub struct UsbDevice {
    pub speed: u8,
    pub address: u8,
    pub max_packet0: u32,
    pub dev_desc: Option<UsbDeviceDesc>,
    pub active_config: Option<ConfigDescriptor>,
    pub lang_id: [u16; 16],
    pub total_lang_id: u16,
    pub num_of_interface: u8,
    pub interfaces: Vec<Option<UsbInterface>>,
    pub translator: Usb2HcTransactionTranslator,
    pub parent_addr: u8,
    pub parent_if: Option<InterfaceId>,
    pub parent_port: u8,
    pub tier: u8,
    pub connected: bool,
    pub disconnect_fail: bool,
}

/// One function of a USB device. A handle or event of 0 is absent, and so is an
/// empty device path or change map.
#[derive(Debug)]
pub struct UsbInterface {
    pub signature: u64,
    pub if_desc: Option<UsbInterfaceDesc>,
    pub handle: usize,
    pub device_path: Vec<u8>,
    pub is_managed: bool,
    pub is_hub: bool,
    pub hub_api: Option<UsbHubApi>,
    pub num_of_port: u8,
    pub hub_notify: usize,
    pub hub_ep: Option<UsbEndpointDesc>,
    pub hub_interrupt_context: bool,
    pub change_map: Vec<u8>,
    pub max_speed: u8,
    pub poll_count: u8,
}

/// The device paths that a user wants to have connected, in the order in which
/// they were asked for.
#[derive(Debug)]
pub struct UsbDevicePathList {
    pub items: Vec<DevicePathListItem>,
}

/// One wanted device path.
#[derive(Debug)]
pub struct DevicePathListItem {
    pub device_path: Vec<u8>,
}

/// A USB class node and the end node behind it, as they lie in memory.
#[derive(Clone, Copy, Debug)]
pub struct UsbClassFormatDevicePath {
    pub usb_class: [u8; 32],
    pub end: EfiDevicePathProtocol,
}

/// The USB bus of one host controller. The device with address `i` is in slot `i`
/// of the device table; slot 0 belongs to the root hub.
#[derive(Debug)]
pub struct UsbBus {
    pub signature: u64,
    pub bus_id: EfiUsbBusProtocol,
    pub agent: usize,
    pub host_handle: usize,
    pub device_path: Vec<u8>,
    pub max_devices: u32,
    pub devices: Vec<Option<UsbDevice>>,
    pub wanted_usb_io_dp_list: UsbDevicePathList,
}

impl UsbDevice {
    /// A device has a fixed number of interface slots and uses the first ones.
    pub open spec fn wf(self) -> bool {
        &&& self.interfaces@.len() == USB_MAX_INTERFACE
        &&& self.num_of_interface <= USB_MAX_INTERFACE
    }
}

impl UsbBus {
    /// The device table has a slot for each address, and a device sits in the slot
    /// of its address.
    pub open spec fn wf(self) -> bool {
        &&& self.devices@.len() == USB_DEVICE_SLOTS
        &&& forall|a: int|
            0 <= a < USB_DEVICE_SLOTS ==> (#[trigger] self.devices@[a] matches Some(d) ==> d.wf()
                && d.address == a)
    }

    /// The device with the given address.
    pub open spec fn device(self, address: u8) -> Option<UsbDevice> {
        self.devices@[address as int]
    }

    /// The interface with the given name.
    pub open spec fn interface(self, id: InterfaceId) -> Option<UsbInterface> {
        match self.device(id.device) {
            Some(d) => if id.index < d.interfaces@.len() {
                d.interfaces@[id.index as int]
            } else {
                None
            },
            None => None,
        }
    }

    /// The number of device slots that the host controller can use.
    pub open spec fn usable_slots(self) -> int {
        if self.max_devices < USB_DEVICE_SLOTS {
            self.max_devices as int
        } else {
            USB_DEVICE_SLOTS as int
        }
    }

    /// `post` differs from this bus in nothing but the device table.
    pub open spec fn same_but_devices(self, post: UsbBus) -> bool {
        post == (UsbBus { devices: post.devices, ..self })
    }

    /// `post` differs from this bus in nothing but the device in slot `address`,
    /// which it replaces by `device`.
    pub open spec fn with_device(self, address: u8, device: Option<UsbDevice>, post: UsbBus) -> bool {
        &&& self.same_but_devices(post)
        &&& post.devices@ == self.devices@.update(address as int, device)
    }

    /// `post` differs from this bus in nothing but the named interface, which it
    /// replaces by `interface`.
    pub open spec fn with_interface(
        self,
        id: InterfaceId,
        interface: Option<UsbInterface>,
        post: UsbBus,
    ) -> bool {
        self.device(id.device) matches Some(d) && post.device(id.device) matches Some(e)
            && self.with_device(id.device, Some(UsbDevice { interfaces: e.interfaces, ..d }), post)
            && e.interfaces@ == d.interfaces@.update(id.index as int, interface)
    }

    /// Returns the number of device slots that the host controller can use.
    pub fn slot_count(&self) -> (r: usize)
        ensures
            r == self.usable_slots(),
    {
        if (self.max_devices as usize) < USB_DEVICE_SLOTS {
            self.max_devices as usize
        } else {
            USB_DEVICE_SLOTS
        }
    }

    /// Looks up a device.
    pub fn get_device(&self, address: u8) -> (r: Option<&UsbDevice>)
        requires
            self.wf(),
        ensures
            r is Some == self.device(address) is Some,
            r matches Some(d) ==> self.device(address) == Some(*d),
    {
        self.devices[address as usize].as_ref()
    }

    /// Looks up an interface.
    pub fn get_interface(&self, id: InterfaceId) -> (r: Option<&UsbInterface>)
        requires
            self.wf(),
        ensures
            r is Some == self.interface(id) is Some,
            r matches Some(i) ==> self.interface(id) == Some(*i),
    {
        match self.devices[id.device as usize].as_ref() {
            Some(d) => if (id.index as usize) < d.interfaces.len() {
                d.interfaces[id.index as usize].as_ref()
            } else {
                None
            },
            None => None,
        }
    }
}

impl UsbDevicePathList {
    /// The wanted paths as byte sequences.
    pub open spec fn paths(self) -> Seq<Seq<u8>> {
        self.items@.map_values(|item: DevicePathListItem| item.device_path@)
    }
}

} // verus!
