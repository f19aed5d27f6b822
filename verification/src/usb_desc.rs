//! USB descriptors: what they look like on the wire and how they are read.

use crate::device_path::{le16, u16_from_le};
use vstd::prelude::*;
use vstd::slice::{slice_subrange, slice_to_vec};

verus! {

/// Largest number of alternate settings kept for one interface.
pub const USB_MAX_INTERFACE_SETTING: usize = 256;

pub const USB_DESC_TYPE_DEVICE: u8 = 0x01;

pub const USB_DESC_TYPE_CONFIG: u8 = 0x02;

pub const USB_DESC_TYPE_STRING: u8 = 0x03;

pub const USB_DESC_TYPE_INTERFACE: u8 = 0x04;

pub const USB_DESC_TYPE_ENDPOINT: u8 = 0x05;

pub const DESCRIPTOR_HEADER_SIZE: usize = 2;

pub const DEVICE_DESCRIPTOR_SIZE: usize = 18;

pub const CONFIG_DESCRIPTOR_SIZE: usize = 9;

pub const INTERFACE_DESCRIPTOR_SIZE: usize = 9;

pub const ENDPOINT_DESCRIPTOR_SIZE: usize = 7;

/// The two bytes that every descriptor starts with.
#[derive(Clone, Copy, Debug, PartialEq, Eq, Structural)]
pub struct DescriptorHeader {
    pub length: u8,
    pub descriptor_type: u8,
}

#[derive(Clone, Copy, Debug, PartialEq, Eq, Structural)]
pub struct DeviceDescriptor {
    pub length: u8,
    pub descriptor_type: u8,
    pub bcd_usb: u16,
    pub device_class: u8,
    pub device_sub_class: u8,
    pub device_protocol: u8,
    pub max_packet_size0: u8,
    pub id_vendor: u16,
    pub id_product: u16,
    pub bcd_device: u16,
    pub str_manufacturer: u8,
    pub str_product: u8,
    pub str_serial_number: u8,
    pub num_configurations: u8,
}

#[derive(Clone, Copy, Debug, PartialEq, Eq, Structural)]
pub struct ConfigDescriptor {
    pub length: u8,
    pub descriptor_type: u8,
    pub total_length: u16,
    pub num_interfaces: u8,
    pub configuration_value: u8,
    pub configuration: u8,
    pub attributes: u8,
    pub max_power: u8,
}

#[derive(Clone, Copy, Debug, PartialEq, Eq, Structural)]
pub struct InterfaceDescriptor {
    pub length: u8,
    pub descriptor_type: u8,
    pub interface_number: u8,
    pub alternate_setting: u8,
    pub num_endpoints: u8,
    pub interface_class: u8,
    pub interface_sub_class: u8,
    pub interface_protocol: u8,
    pub interface: u8,
}

#[derive(Clone, Copy, Debug, PartialEq, Eq, Structural)]
pub struct EndpointDescriptor {
    pub length: u8,
    pub descriptor_type: u8,
    pub endpoint_address: u8,
    pub attributes: u8,
    pub max_packet_size: u16,
    pub interval: u8,
}

/// An endpoint descriptor and the data toggle that transfers use.
#[derive(Clone, Copy, Debug, PartialEq, Eq, Structural)]
pub struct UsbEndpointDesc {
    pub descriptor: EndpointDescriptor,
    pub toggle: u8,
}

/// An alternate setting with a slot for each endpoint that its descriptor
/// announces. A slot is empty where the device sent no descriptor for it.
#[derive(Debug)]
pub struct UsbInterfaceSetting {
    pub descriptor: InterfaceDescriptor,
    pub endpoints: Vec<Option<UsbEndpointDesc>>,
}

/// The alternate settings of one interface, in the order in which they came.
#[derive(Debug)]
pub struct UsbInterfaceDesc {
    pub settings: Vec<UsbInterfaceSetting>,
    pub active_index: usize,
}

/// A configuration and its interfaces.
#[derive(Debug)]
pub struct UsbConfigDesc {
    pub descriptor: ConfigDescriptor,
    pub interfaces: Vec<UsbInterfaceDesc>,
}

/// A device descriptor and the configurations that could be read. The table of
/// configurations is empty until it has been built.
#[derive(Debug)]
pub struct UsbDeviceDesc {
    pub descriptor: DeviceDescriptor,
    pub configs: Vec<Option<UsbConfigDesc>>,
}

/// What an alternate setting holds.
#[verifier::ext_equal]
pub struct SettingView {
    pub descriptor: InterfaceDescriptor,
    pub endpoints: Seq<Option<UsbEndpointDesc>>,
}

/// What an interface holds.
#[verifier::ext_equal]
pub struct InterfaceDescView {
    pub settings: Seq<SettingView>,
    pub active_index: int,
}

/// What a configuration holds.
#[verifier::ext_equal]
pub struct ConfigView {
    pub descriptor: ConfigDescriptor,
    pub interfaces: Seq<InterfaceDescView>,
}

impl View for UsbInterfaceSetting {
    type V = SettingView;

    open spec fn view(&self) -> SettingView {
        SettingView { descriptor: self.descriptor, endpoints: self.endpoints@ }
    }
}

impl View for UsbInterfaceDesc {
    type V = InterfaceDescView;

    open spec fn view(&self) -> InterfaceDescView {
        InterfaceDescView {
            settings: self.settings@.map_values(|s: UsbInterfaceSetting| s@),
            active_index: self.active_index as int,
        }
    }
}

impl View for UsbConfigDesc {
    type V = ConfigView;

    open spec fn view(&self) -> ConfigView {
        ConfigView {
            descriptor: self.descriptor,
            interfaces: self.interfaces@.map_values(|i: UsbInterfaceDesc| i@),
        }
    }
}

// ---- Reading bytes ----

/// The byte at `i`, or 0 behind the end of the bytes.
pub open spec fn byte_of(bytes: Seq<u8>, i: int) -> u8 {
    if 0 <= i < bytes.len() {
        bytes[i]
    } else {
        0
    }
}

/// The little-endian 16-bit value at `i`.
pub open spec fn word_of(bytes: Seq<u8>, i: int) -> u16 {
    le16(byte_of(bytes, i), byte_of(bytes, i + 1))
}

pub fn byte_at(bytes: &[u8], i: usize) -> (r: u8)
    ensures
        r == byte_of(bytes@, i as int),
{
    if i < bytes.len() {
        bytes[i]
    } else {
        0
    }
}

pub fn word_at(bytes: &[u8], i: usize) -> (r: u16)
    requires
        i < usize::MAX,
    ensures
        r == word_of(bytes@, i as int),
{
    u16_from_le(byte_at(bytes, i), byte_at(bytes, i + 1))
}

impl DeviceDescriptor {
    /// The descriptor that the bytes spell; bytes that are missing read as 0.
    pub open spec fn of(bytes: Seq<u8>) -> DeviceDescriptor {
        DeviceDescriptor {
            length: byte_of(bytes, 0),
            descriptor_type: byte_of(bytes, 1),
            bcd_usb: word_of(bytes, 2),
            device_class: byte_of(bytes, 4),
            device_sub_class: byte_of(bytes, 5),
            device_protocol: byte_of(bytes, 6),
            max_packet_size0: byte_of(bytes, 7),
            id_vendor: word_of(bytes, 8),
            id_product: word_of(bytes, 10),
            bcd_device: word_of(bytes, 12),
            str_manufacturer: byte_of(bytes, 14),
            str_product: byte_of(bytes, 15),
            str_serial_number: byte_of(bytes, 16),
            num_configurations: byte_of(bytes, 17),
        }
    }

    /// A descriptor with nothing in it.
    pub open spec fn blank() -> DeviceDescriptor {
        DeviceDescriptor {
            length: 0,
            descriptor_type: 0,
            bcd_usb: 0,
            device_class: 0,
            device_sub_class: 0,
            device_protocol: 0,
            max_packet_size0: 0,
            id_vendor: 0,
            id_product: 0,
            bcd_device: 0,
            str_manufacturer: 0,
            str_product: 0,
            str_serial_number: 0,
            num_configurations: 0,
        }
    }

    /// The first eight bytes of a descriptor.
    pub open spec fn head_bytes(self) -> Seq<u8> {
        seq![
            self.length,
            self.descriptor_type,
            (self.bcd_usb % 256) as u8,
            (self.bcd_usb / 256) as u8,
            self.device_class,
            self.device_sub_class,
            self.device_protocol,
            self.max_packet_size0,
        ]
    }

    /// Returns a descriptor with nothing in it.
    pub fn new() -> (r: DeviceDescriptor)
        ensures
            r == DeviceDescriptor::blank(),
    {
        DeviceDescriptor {
            length: 0,
            descriptor_type: 0,
            bcd_usb: 0,
            device_class: 0,
            device_sub_class: 0,
            device_protocol: 0,
            max_packet_size0: 0,
            id_vendor: 0,
            id_product: 0,
            bcd_device: 0,
            str_manufacturer: 0,
            str_product: 0,
            str_serial_number: 0,
            num_configurations: 0,
        }
    }

    /// Returns the first eight bytes of a descriptor.
    pub fn head(&self) -> (r: Vec<u8>)
        ensures
            r@ == self.head_bytes(),
    {
        let head: Vec<u8> = vec![
            self.length,
            self.descriptor_type,
            (self.bcd_usb % 256) as u8,
            (self.bcd_usb / 256) as u8,
            self.device_class,
            self.device_sub_class,
            self.device_protocol,
            self.max_packet_size0,
        ];
        assert(head@ =~= self.head_bytes());
        head
    }

    /// Reads a device descriptor.
    pub fn read(bytes: &[u8]) -> (r: DeviceDescriptor)
        ensures
            r == DeviceDescriptor::of(bytes@),
    {
        DeviceDescriptor {
            length: byte_at(bytes, 0),
            descriptor_type: byte_at(bytes, 1),
            bcd_usb: word_at(bytes, 2),
            device_class: byte_at(bytes, 4),
            device_sub_class: byte_at(bytes, 5),
            device_protocol: byte_at(bytes, 6),
            max_packet_size0: byte_at(bytes, 7),
            id_vendor: word_at(bytes, 8),
            id_product: word_at(bytes, 10),
            bcd_device: word_at(bytes, 12),
            str_manufacturer: byte_at(bytes, 14),
            str_product: byte_at(bytes, 15),
            str_serial_number: byte_at(bytes, 16),
            num_configurations: byte_at(bytes, 17),
        }
    }
}

impl ConfigDescriptor {
    /// The descriptor that the bytes spell; bytes that are missing read as 0.
    pub open spec fn of(bytes: Seq<u8>) -> ConfigDescriptor {
        ConfigDescriptor {
            length: byte_of(bytes, 0),
            descriptor_type: byte_of(bytes, 1),
            total_length: word_of(bytes, 2),
            num_interfaces: byte_of(bytes, 4),
            configuration_value: byte_of(bytes, 5),
            configuration: byte_of(bytes, 6),
            attributes: byte_of(bytes, 7),
            max_power: byte_of(bytes, 8),
        }
    }

    /// Reads a configuration descriptor.
    pub fn read(bytes: &[u8]) -> (r: ConfigDescriptor)
        ensures
            r == ConfigDescriptor::of(bytes@),
    {
        ConfigDescriptor {
            length: byte_at(bytes, 0),
            descriptor_type: byte_at(bytes, 1),
            total_length: word_at(bytes, 2),
            num_interfaces: byte_at(bytes, 4),
            configuration_value: byte_at(bytes, 5),
            configuration: byte_at(bytes, 6),
            attributes: byte_at(bytes, 7),
            max_power: byte_at(bytes, 8),
        }
    }
}

impl InterfaceDescriptor {
    /// The descriptor that the bytes spell; bytes that are missing read as 0.
    pub open spec fn of(bytes: Seq<u8>) -> InterfaceDescriptor {
        InterfaceDescriptor {
            length: byte_of(bytes, 0),
            descriptor_type: byte_of(bytes, 1),
            interface_number: byte_of(bytes, 2),
            alternate_setting: byte_of(bytes, 3),
            num_endpoints: byte_of(bytes, 4),
            interface_class: byte_of(bytes, 5),
            interface_sub_class: byte_of(bytes, 6),
            interface_protocol: byte_of(bytes, 7),
            interface: byte_of(bytes, 8),
        }
    }

    /// Reads an interface descriptor.
    pub fn read(bytes: &[u8]) -> (r: InterfaceDescriptor)
        ensures
            r == InterfaceDescriptor::of(bytes@),
    {
        InterfaceDescriptor {
            length: byte_at(bytes, 0),
            descriptor_type: byte_at(bytes, 1),
            interface_number: byte_at(bytes, 2),
            alternate_setting: byte_at(bytes, 3),
            num_endpoints: byte_at(bytes, 4),
            interface_class: byte_at(bytes, 5),
            interface_sub_class: byte_at(bytes, 6),
            interface_protocol: byte_at(bytes, 7),
            interface: byte_at(bytes, 8),
        }
    }
}

impl EndpointDescriptor {
    /// The descriptor that the bytes spell; bytes that are missing read as 0.
    pub open spec fn of(bytes: Seq<u8>) -> EndpointDescriptor {
        EndpointDescriptor {
            length: byte_of(bytes, 0),
            descriptor_type: byte_of(bytes, 1),
            endpoint_address: byte_of(bytes, 2),
            attributes: byte_of(bytes, 3),
            max_packet_size: word_of(bytes, 4),
            interval: byte_of(bytes, 6),
        }
    }

    /// Reads an endpoint descriptor.
    pub fn read(bytes: &[u8]) -> (r: EndpointDescriptor)
        ensures
            r == EndpointDescriptor::of(bytes@),
    {
        EndpointDescriptor {
            length: byte_at(bytes, 0),
            descriptor_type: byte_at(bytes, 1),
            endpoint_address: byte_at(bytes, 2),
            attributes: byte_at(bytes, 3),
            max_packet_size: word_at(bytes, 4),
            interval: byte_at(bytes, 6),
        }
    }
}

/// The first eight bytes of a descriptor give back the fields that lie in them.
pub proof fn head_is_read_back(d: DeviceDescriptor)
    ensures
        DeviceDescriptor::of(d.head_bytes()) == (DeviceDescriptor {
            length: d.length,
            descriptor_type: d.descriptor_type,
            bcd_usb: d.bcd_usb,
            device_class: d.device_class,
            device_sub_class: d.device_sub_class,
            device_protocol: d.device_protocol,
            max_packet_size0: d.max_packet_size0,
            ..DeviceDescriptor::blank()
        }),
{
}

// ---- Descriptor streams ----

/// The smallest size of a descriptor of the given type, for the types that are
/// looked for in a stream of descriptors.
pub open spec fn required_size(descriptor_type: u8) -> Option<int> {
    if descriptor_type == USB_DESC_TYPE_DEVICE {
        Some(DEVICE_DESCRIPTOR_SIZE as int)
    } else if descriptor_type == USB_DESC_TYPE_CONFIG {
        Some(CONFIG_DESCRIPTOR_SIZE as int)
    } else if descriptor_type == USB_DESC_TYPE_INTERFACE {
        Some(INTERFACE_DESCRIPTOR_SIZE as int)
    } else if descriptor_type == USB_DESC_TYPE_ENDPOINT {
        Some(ENDPOINT_DESCRIPTOR_SIZE as int)
    } else {
        None
    }
}

/// Walks the stream from `offset`, each descriptor starting where the one before
/// it ends, to the first one of the given type. Gives its first `size` bytes and
/// the offset behind it. The walk fails at a descriptor that is empty, that leaves
/// the stream, or that is of the type but too short.
pub open spec fn find_desc_from(bytes: Seq<u8>, offset: int, descriptor_type: u8, size: int) -> Option<
    (Seq<u8>, int),
>
    decreases bytes.len() - offset,
{
    if offset < 0 || offset + DESCRIPTOR_HEADER_SIZE > bytes.len() {
        None
    } else if bytes[offset] == 0 || offset + bytes[offset] > bytes.len() {
        None
    } else if bytes[offset + 1] == descriptor_type {
        if bytes[offset] < size {
            None
        } else {
            Some((bytes.subrange(offset, offset + size), offset + bytes[offset]))
        }
    } else {
        find_desc_from(bytes, offset + bytes[offset], descriptor_type, size)
    }
}

/// The first descriptor of a type in a stream, and the number of bytes up to its
/// end.
pub open spec fn find_desc(bytes: Seq<u8>, descriptor_type: u8) -> Option<(Seq<u8>, int)> {
    match required_size(descriptor_type) {
        Some(size) => find_desc_from(bytes, 0, descriptor_type, size),
        None => None,
    }
}

/// Returns the first descriptor of `descriptor_type` and the bytes consumed.
pub fn usb_create_desc(descriptor_bytes: &[u8], descriptor_type: u8) -> (r: Option<(Vec<u8>, usize)>)
    ensures
        match r {
            Some((descriptor, consumed)) => find_desc(descriptor_bytes@, descriptor_type) == Some(
                (descriptor@, consumed as int),
            ),
            None => find_desc(descriptor_bytes@, descriptor_type) is None,
        },
{
    let required: usize = if descriptor_type == USB_DESC_TYPE_DEVICE {
        DEVICE_DESCRIPTOR_SIZE
    } else if descriptor_type == USB_DESC_TYPE_CONFIG {
        CONFIG_DESCRIPTOR_SIZE
    } else if descriptor_type == USB_DESC_TYPE_INTERFACE {
        INTERFACE_DESCRIPTOR_SIZE
    } else if descriptor_type == USB_DESC_TYPE_ENDPOINT {
        ENDPOINT_DESCRIPTOR_SIZE
    } else {
        return None;
    };
    let mut offset: usize = 0;
    while offset < descriptor_bytes.len() && descriptor_bytes.len() - offset >= DESCRIPTOR_HEADER_SIZE
        invariant
            offset <= descriptor_bytes@.len(),
            required_size(descriptor_type) == Some(required as int),
            find_desc(descriptor_bytes@, descriptor_type) == find_desc_from(
                descriptor_bytes@,
                offset as int,
                descriptor_type,
                required as int,
            ),
        decreases descriptor_bytes@.len() - offset,
    {
        let length: usize = descriptor_bytes[offset] as usize;
        if length == 0 || length > descriptor_bytes.len() - offset {
            return None;
        }
        if descriptor_bytes[offset + 1] == descriptor_type {
            if length < required {
                return None;
            }
            let descriptor = slice_to_vec(slice_subrange(descriptor_bytes, offset, offset + required));
            return Some((descriptor, offset + length));
        }
        offset = offset + length;
    }
    None
}

/// A descriptor that is found lies inside the stream, and reading it makes
/// progress.
pub proof fn find_desc_bounds(bytes: Seq<u8>, descriptor_type: u8)
    ensures
        find_desc(bytes, descriptor_type) matches Some((descriptor, consumed)) ==> {
            &&& required_size(descriptor_type) == Some(descriptor.len() as int)
            &&& descriptor.len() <= consumed <= bytes.len()
            &&& descriptor[1] == descriptor_type
            &&& descriptor.len() <= descriptor[0]
        },
{
    if let Some(size) = required_size(descriptor_type) {
        lemma_find_desc_from_bounds(bytes, 0, descriptor_type, size);
    }
}

proof fn lemma_find_desc_from_bounds(bytes: Seq<u8>, offset: int, descriptor_type: u8, size: int)
    requires
        0 <= offset,
        2 <= size,
    ensures
        find_desc_from(bytes, offset, descriptor_type, size) matches Some((descriptor, end)) ==> {
            &&& descriptor.len() == size
            &&& offset + size <= end <= bytes.len()
            &&& descriptor[1] == descriptor_type
            &&& size <= descriptor[0]
        },
    decreases bytes.len() - offset,
{
    if offset + DESCRIPTOR_HEADER_SIZE <= bytes.len() && bytes[offset] != 0 && offset + bytes[offset]
        <= bytes.len() && bytes[offset + 1] != descriptor_type {
        lemma_find_desc_from_bounds(bytes, offset + bytes[offset], descriptor_type, size);
    }
}

/// An endpoint as it is first known: its data toggle is 0.
pub open spec fn fresh_endpoint(bytes: Seq<u8>) -> UsbEndpointDesc {
    UsbEndpointDesc { descriptor: EndpointDescriptor::of(bytes), toggle: 0 }
}

/// Reads up to `count` endpoints from `offset` on, stopping early where the stream
/// ends. Gives the endpoints and the offset behind the last one; fails where there
/// are bytes left but no endpoint in them.
pub open spec fn read_endpoints(bytes: Seq<u8>, offset: int, count: nat) -> Option<
    (Seq<UsbEndpointDesc>, int),
>
    decreases count,
{
    if count == 0 || offset >= bytes.len() {
        Some((Seq::empty(), offset))
    } else {
        match find_desc(bytes.skip(offset), USB_DESC_TYPE_ENDPOINT) {
            None => None,
            Some((descriptor, consumed)) => match read_endpoints(
                bytes,
                offset + consumed,
                (count - 1) as nat,
            ) {
                None => None,
                Some((rest, end)) => Some((seq![fresh_endpoint(descriptor)] + rest, end)),
            },
        }
    }
}

/// The endpoints in their slots, with the slots behind them empty.
pub open spec fn endpoint_slots(endpoints: Seq<UsbEndpointDesc>, count: nat) -> Seq<
    Option<UsbEndpointDesc>,
> {
    Seq::new(
        count,
        |i: int|
            if i < endpoints.len() {
                Some(endpoints[i])
            } else {
                None
            },
    )
}

/// The first alternate setting in a stream, with its endpoints, and the number of
/// bytes up to its end.
pub open spec fn read_setting(bytes: Seq<u8>) -> Option<(SettingView, int)> {
    match find_desc(bytes, USB_DESC_TYPE_INTERFACE) {
        None => None,
        Some((interface, consumed)) => {
            let descriptor = InterfaceDescriptor::of(interface);
            match read_endpoints(bytes, consumed, descriptor.num_endpoints as nat) {
                None => None,
                Some((endpoints, end)) => Some(
                    (
                        SettingView {
                            descriptor,
                            endpoints: endpoint_slots(endpoints, descriptor.num_endpoints as nat),
                        },
                        end,
                    ),
                ),
            }
        },
    }
}

proof fn lemma_read_endpoints_bounds(bytes: Seq<u8>, offset: int, count: nat)
    requires
        0 <= offset <= bytes.len(),
    ensures
        read_endpoints(bytes, offset, count) matches Some((endpoints, end)) ==> {
            &&& endpoints.len() <= count
            &&& offset <= end <= bytes.len()
            &&& endpoints.len() < count ==> end == bytes.len()
        },
    decreases count,
{
    if count > 0 && offset < bytes.len() {
        find_desc_bounds(bytes.skip(offset), USB_DESC_TYPE_ENDPOINT);
        if let Some((_, consumed)) = find_desc(bytes.skip(offset), USB_DESC_TYPE_ENDPOINT) {
            lemma_read_endpoints_bounds(bytes, offset + consumed, (count - 1) as nat);
        }
    }
}

/// An alternate setting has a slot for each endpoint that it announces, lies inside
/// the stream, and is at least as long as an interface descriptor. A slot is left
/// empty only where the stream ended.
pub proof fn read_setting_bounds(bytes: Seq<u8>)
    ensures
        read_setting(bytes) matches Some((setting, consumed)) ==> {
            &&& setting.endpoints.len() == setting.descriptor.num_endpoints
            &&& INTERFACE_DESCRIPTOR_SIZE <= consumed <= bytes.len()
            &&& consumed < bytes.len() ==> forall|i: int|
                0 <= i < setting.endpoints.len() ==> #[trigger] setting.endpoints[i] is Some
        },
{
    find_desc_bounds(bytes, USB_DESC_TYPE_INTERFACE);
    if let Some((interface, consumed)) = find_desc(bytes, USB_DESC_TYPE_INTERFACE) {
        let descriptor = InterfaceDescriptor::of(interface);
        lemma_read_endpoints_bounds(bytes, consumed, descriptor.num_endpoints as nat);
    }
}

/// One step of `read_endpoints`, taken at its far end.
proof fn lemma_read_endpoints_snoc(bytes: Seq<u8>, offset: int, done: nat, count: nat)
    requires
        0 <= offset <= bytes.len(),
        done < count,
        read_endpoints(bytes, offset, done) matches Some((endpoints, end)) && endpoints.len() == done
            && end < bytes.len(),
    ensures
        ({
            let (endpoints, end) = read_endpoints(bytes, offset, done).unwrap();
            match find_desc(bytes.skip(end), USB_DESC_TYPE_ENDPOINT) {
                None => read_endpoints(bytes, offset, count) is None,
                Some((descriptor, consumed)) => read_endpoints(bytes, offset, (done + 1) as nat)
                    == Some((endpoints.push(fresh_endpoint(descriptor)), end + consumed)),
            }
        }),
    decreases done,
{
    reveal_with_fuel(read_endpoints, 2);
    lemma_read_endpoints_bounds(bytes, offset, done);
    if done > 0 {
        let (first, consumed) = find_desc(bytes.skip(offset), USB_DESC_TYPE_ENDPOINT).unwrap();
        find_desc_bounds(bytes.skip(offset), USB_DESC_TYPE_ENDPOINT);
        let (rest, end) = read_endpoints(bytes, offset + consumed, (done - 1) as nat).unwrap();
        lemma_read_endpoints_bounds(bytes, offset + consumed, (done - 1) as nat);
        lemma_read_endpoints_snoc(bytes, offset + consumed, (done - 1) as nat, (count - 1) as nat);
        if let Some((descriptor, last)) = find_desc(bytes.skip(end), USB_DESC_TYPE_ENDPOINT) {
            assert(seq![fresh_endpoint(first)] + rest.push(fresh_endpoint(descriptor)) =~= (seq![
                fresh_endpoint(first),
            ] + rest).push(fresh_endpoint(descriptor)));
        }
    } else {
        if let Some((descriptor, last)) = find_desc(bytes.skip(offset), USB_DESC_TYPE_ENDPOINT) {
            assert(seq![fresh_endpoint(descriptor)] + Seq::<UsbEndpointDesc>::empty() =~= Seq::<
                UsbEndpointDesc,
            >::empty().push(fresh_endpoint(descriptor)));
        }
    }
}

/// Once the stream has ended, asking for more endpoints changes nothing.
proof fn lemma_read_endpoints_ended(bytes: Seq<u8>, offset: int, done: nat, count: nat)
    requires
        0 <= offset <= bytes.len(),
        done <= count,
        read_endpoints(bytes, offset, done) matches Some((endpoints, end)) && end >= bytes.len(),
    ensures
        read_endpoints(bytes, offset, count) == read_endpoints(bytes, offset, done),
    decreases done,
{
    if offset < bytes.len() && done > 0 {
        let (first, consumed) = find_desc(bytes.skip(offset), USB_DESC_TYPE_ENDPOINT).unwrap();
        find_desc_bounds(bytes.skip(offset), USB_DESC_TYPE_ENDPOINT);
        lemma_read_endpoints_ended(bytes, offset + consumed, (done - 1) as nat, (count - 1) as nat);
    }
}

/// Parses an interface descriptor and its endpoint descriptors.
pub fn usb_parse_interface_desc(bytes: &[u8]) -> (r: Option<(UsbInterfaceSetting, usize)>)
    ensures
        match r {
            Some((setting, consumed)) => read_setting(bytes@) == Some((setting@, consumed as int)),
            None => read_setting(bytes@) is None,
        },
{
    let (interface_bytes, consumed): (Vec<u8>, usize) = match usb_create_desc(
        bytes,
        USB_DESC_TYPE_INTERFACE,
    ) {
        Some(found) => found,
        None => return None,
    };
    proof {
        find_desc_bounds(bytes@, USB_DESC_TYPE_INTERFACE);
    }
    let descriptor = InterfaceDescriptor::read(interface_bytes.as_slice());
    let count: usize = descriptor.num_endpoints as usize;
    let mut endpoints: Vec<Option<UsbEndpointDesc>> = Vec::new();
    let ghost mut found: Seq<UsbEndpointDesc> = Seq::empty();
    let mut offset: usize = consumed;
    while endpoints.len() < count && offset < bytes.len()
        invariant
            count == descriptor.num_endpoints,
            consumed <= bytes@.len(),
            offset <= bytes@.len(),
            find_desc(bytes@, USB_DESC_TYPE_INTERFACE) matches Some((b, c)) && InterfaceDescriptor::of(b)
                == descriptor && c == consumed,
            endpoints@.len() == found.len(),
            found.len() <= count,
            forall|i: int| 0 <= i < found.len() ==> endpoints@[i] == Some(#[trigger] found[i]),
            read_endpoints(bytes@, consumed as int, found.len()) == Some((found, offset as int)),
        decreases count - endpoints@.len(),
    {
        proof {
            lemma_read_endpoints_snoc(bytes@, consumed as int, found.len(), count as nat);
            assert(bytes@.subrange(offset as int, bytes@.len() as int) =~= bytes@.skip(offset as int));
            find_desc_bounds(bytes@.skip(offset as int), USB_DESC_TYPE_ENDPOINT);
        }
        let (endpoint_bytes, endpoint_consumed): (Vec<u8>, usize) = match usb_create_desc(
            slice_subrange(bytes, offset, bytes.len()),
            USB_DESC_TYPE_ENDPOINT,
        ) {
            Some(next) => next,
            None => return None,
        };
        let endpoint = UsbEndpointDesc {
            descriptor: EndpointDescriptor::read(endpoint_bytes.as_slice()),
            toggle: 0,
        };
        proof {
            found = found.push(endpoint);
        }
        endpoints.push(Some(endpoint));
        offset = offset + endpoint_consumed;
    }
    proof {
        if found.len() < count {
            lemma_read_endpoints_ended(bytes@, consumed as int, found.len(), count as nat);
        }
    }
    while endpoints.len() < count
        invariant
            found.len() <= endpoints@.len() <= count,
            forall|i: int| 0 <= i < found.len() ==> endpoints@[i] == Some(#[trigger] found[i]),
            forall|i: int| found.len() <= i < endpoints@.len() ==> #[trigger] endpoints@[i] is None,
        decreases count - endpoints@.len(),
    {
        endpoints.push(None);
    }
    proof {
        assert(endpoints@ =~= endpoint_slots(found, count as nat));
    }
    Some((UsbInterfaceSetting { descriptor, endpoints }, offset))
}

/// Reads alternate settings one after the other from `offset` on and puts each
/// behind the settings of the interface that it names. Reading stops where the rest
/// holds no further setting. It fails where a setting names an interface that the
/// configuration does not have, or one whose settings are full.
pub open spec fn place_settings(bytes: Seq<u8>, offset: int, placed: Seq<Seq<SettingView>>) -> Option<
    Seq<Seq<SettingView>>,
>
    decreases bytes.len() - offset,
{
    if offset < 0 || offset + INTERFACE_DESCRIPTOR_SIZE > bytes.len() {
        Some(placed)
    } else {
        proof {
            read_setting_bounds(bytes.skip(offset));
        }
        match read_setting(bytes.skip(offset)) {
            None => Some(placed),
            Some((setting, consumed)) => {
                let number = setting.descriptor.interface_number as int;
                if number >= placed.len() || placed[number].len() >= USB_MAX_INTERFACE_SETTING {
                    None
                } else {
                    place_settings(
                        bytes,
                        offset + consumed,
                        placed.update(number, placed[number].push(setting)),
                    )
                }
            },
        }
    }
}

/// The configuration in a stream: the first configuration descriptor, and the
/// settings of each of its interfaces. The settings are looked for behind the
/// descriptor and inside the total length that it announces.
pub open spec fn read_config(bytes: Seq<u8>) -> Option<ConfigView> {
    match find_desc(bytes, USB_DESC_TYPE_CONFIG) {
        None => None,
        Some((config, consumed)) => {
            let descriptor = ConfigDescriptor::of(config);
            let total = if descriptor.total_length < bytes.len() {
                descriptor.total_length as int
            } else {
                bytes.len() as int
            };
            match place_settings(
                bytes.take(total),
                consumed,
                no_settings(descriptor.num_interfaces as nat),
            ) {
                None => None,
                Some(placed) => Some(
                    ConfigView {
                        descriptor,
                        interfaces: placed.map_values(
                            |settings: Seq<SettingView>|
                                InterfaceDescView { settings, active_index: 0 },
                        ),
                    },
                ),
            }
        },
    }
}

/// The settings of each interface.
spec fn settings_of(interfaces: Seq<UsbInterfaceDesc>) -> Seq<Seq<SettingView>> {
    interfaces.map_values(|i: UsbInterfaceDesc| i@.settings)
}

/// Parses a configuration descriptor and all interface alternate settings.
pub fn usb_parse_config_desc(bytes: &[u8]) -> (r: Option<UsbConfigDesc>)
    ensures
        match r {
            Some(config) => read_config(bytes@) == Some(config@),
            None => read_config(bytes@) is None,
        },
{
    let (config_bytes, header_consumed): (Vec<u8>, usize) = match usb_create_desc(
        bytes,
        USB_DESC_TYPE_CONFIG,
    ) {
        Some(found) => found,
        None => return None,
    };
    let descriptor = ConfigDescriptor::read(config_bytes.as_slice());
    let count: usize = descriptor.num_interfaces as usize;
    let mut interfaces: Vec<UsbInterfaceDesc> = Vec::new();
    while interfaces.len() < count
        invariant
            interfaces@.len() <= count,
            forall|i: int|
                0 <= i < interfaces@.len() ==> (#[trigger] interfaces@[i]).settings@.len() == 0
                    && interfaces@[i].active_index == 0,
        decreases count - interfaces@.len(),
    {
        interfaces.push(UsbInterfaceDesc { settings: Vec::new(), active_index: 0 });
    }
    let parse_length: usize = if (descriptor.total_length as usize) < bytes.len() {
        descriptor.total_length as usize
    } else {
        bytes.len()
    };
    let mut offset: usize = header_consumed;
    let ghost stream = bytes@.take(parse_length as int);
    let ghost start = no_settings(count as nat);
    proof {
        find_desc_bounds(bytes@, USB_DESC_TYPE_CONFIG);
        assert(settings_of(interfaces@) =~= start) by {
            assert forall|i: int| 0 <= i < count implies #[trigger] settings_of(interfaces@)[i]
                == start[i] by {
                assert(interfaces@[i]@.settings =~= Seq::<SettingView>::empty());
            }
        }
    }
    while offset <= parse_length && parse_length - offset >= INTERFACE_DESCRIPTOR_SIZE
        invariant_except_break
            parse_length <= bytes@.len(),
            stream == bytes@.take(parse_length as int),
            count == interfaces@.len(),
            place_settings(stream, header_consumed as int, start) == place_settings(
                stream,
                offset as int,
                settings_of(interfaces@),
            ),
        invariant
            descriptor == ConfigDescriptor::of(config_bytes@),
            find_desc(bytes@, USB_DESC_TYPE_CONFIG) == Some((config_bytes@, header_consumed as int)),
            parse_length == (if descriptor.total_length < bytes@.len() {
                descriptor.total_length as int
            } else {
                bytes@.len() as int
            }),
            stream == bytes@.take(parse_length as int),
            start == no_settings(descriptor.num_interfaces as nat),
            forall|i: int| 0 <= i < interfaces@.len() ==> (#[trigger] interfaces@[i]).active_index == 0,
        ensures
            place_settings(stream, header_consumed as int, start) == Some(settings_of(interfaces@)),
        decreases parse_length - offset,
    {
        proof {
            assert(bytes@.subrange(offset as int, parse_length as int) =~= stream.skip(offset as int));
            read_setting_bounds(stream.skip(offset as int));
        }
        let (setting, consumed): (UsbInterfaceSetting, usize) = match usb_parse_interface_desc(
            slice_subrange(bytes, offset, parse_length),
        ) {
            Some(next) => next,
            None => {
                break;
            },
        };
        let number: usize = setting.descriptor.interface_number as usize;
        if number >= count {
            return None;
        }
        proof {
            assert(settings_of(interfaces@)[number as int] == interfaces@[number as int]@.settings);
        }
        if interfaces[number].settings.len() >= USB_MAX_INTERFACE_SETTING {
            return None;
        }
        let ghost before = interfaces@;
        let ghost added = setting@;
        interfaces[number].settings.push(setting);
        proof {
            let after = settings_of(before).update(
                number as int,
                settings_of(before)[number as int].push(added),
            );
            assert forall|i: int| 0 <= i < count implies #[trigger] settings_of(interfaces@)[i]
                == after[i] by {
                assert(interfaces@[i]@.settings =~= after[i]);
            }
            assert(settings_of(interfaces@) =~= after);
        }
        offset = offset + consumed;
    }
    let ghost placed = settings_of(interfaces@);
    let config = UsbConfigDesc { descriptor, interfaces };
    proof {
        let expected = placed.map_values(
            |settings: Seq<SettingView>| InterfaceDescView { settings, active_index: 0 },
        );
        assert(config@.interfaces =~= expected);
    }
    Some(config)
}

proof fn lemma_place_settings_keeps_numbers(bytes: Seq<u8>, offset: int, placed: Seq<Seq<SettingView>>)
    requires
        settings_in_place(placed),
    ensures
        place_settings(bytes, offset, placed) matches Some(done) ==> done.len() == placed.len()
            && settings_in_place(done),
    decreases bytes.len() - offset,
{
    if 0 <= offset && offset + INTERFACE_DESCRIPTOR_SIZE <= bytes.len() {
        read_setting_bounds(bytes.skip(offset));
        if let Some((setting, consumed)) = read_setting(bytes.skip(offset)) {
            let number = setting.descriptor.interface_number as int;
            if number < placed.len() && placed[number].len() < USB_MAX_INTERFACE_SETTING {
                let next = placed.update(number, placed[number].push(setting));
                lemma_place_settings_keeps_numbers(bytes, offset + consumed, next);
            }
        }
    }
}

/// Every setting sits in the slot of the interface that it names and has a slot for
/// each of its endpoints, and no interface has too many settings.
pub open spec fn settings_in_place(placed: Seq<Seq<SettingView>>) -> bool {
    forall|i: int, j: int|
        0 <= i < placed.len() && 0 <= j < placed[i].len() ==> (#[trigger] placed[i][j]).descriptor.interface_number
            == i && placed[i][j].endpoints.len() == placed[i][j].descriptor.num_endpoints
            && placed[i].len() <= USB_MAX_INTERFACE_SETTING
}

/// A configuration that was read has an interface for each one that its descriptor
/// announces, and each setting belongs to the interface under which it is found.
pub proof fn read_config_is_in_place(bytes: Seq<u8>)
    ensures
        read_config(bytes) matches Some(config) ==> {
            &&& config.interfaces.len() == config.descriptor.num_interfaces
            &&& forall|i: int, j: int|
                0 <= i < config.interfaces.len() && 0 <= j < config.interfaces[i].settings.len() ==> {
                    let setting = #[trigger] config.interfaces[i].settings[j];
                    &&& setting.descriptor.interface_number == i
                    &&& setting.endpoints.len() == setting.descriptor.num_endpoints
                    &&& config.interfaces[i].settings.len() <= USB_MAX_INTERFACE_SETTING
                }
        },
{
    if let Some((config, consumed)) = find_desc(bytes, USB_DESC_TYPE_CONFIG) {
        let descriptor = ConfigDescriptor::of(config);
        let total = if descriptor.total_length < bytes.len() {
            descriptor.total_length as int
        } else {
            bytes.len() as int
        };
        let start = no_settings(descriptor.num_interfaces as nat);
        lemma_place_settings_keeps_numbers(bytes.take(total), consumed, start);
        if let Some(placed) = place_settings(bytes.take(total), consumed, start) {
            assert forall|i: int, j: int|
                0 <= i < placed.len() && 0 <= j < placed[i].len() implies (
            #[trigger] read_config(bytes).unwrap().interfaces[i].settings[j]) == placed[i][j] by {}
        }
    }
}

/// The bytes of an interface descriptor.
pub open spec fn interface_bytes(d: InterfaceDescriptor) -> Seq<u8> {
    seq![
        d.length,
        d.descriptor_type,
        d.interface_number,
        d.alternate_setting,
        d.num_endpoints,
        d.interface_class,
        d.interface_sub_class,
        d.interface_protocol,
        d.interface,
    ]
}

/// The bytes of an endpoint descriptor.
pub open spec fn endpoint_bytes(d: EndpointDescriptor) -> Seq<u8> {
    seq![
        d.length,
        d.descriptor_type,
        d.endpoint_address,
        d.attributes,
        (d.max_packet_size % 256) as u8,
        (d.max_packet_size / 256) as u8,
        d.interval,
    ]
}

/// The bytes of endpoint descriptors, one after the other.
pub open spec fn endpoints_bytes(endpoints: Seq<EndpointDescriptor>) -> Seq<u8>
    decreases endpoints.len(),
{
    if endpoints.len() == 0 {
        Seq::empty()
    } else {
        endpoint_bytes(endpoints[0]) + endpoints_bytes(endpoints.drop_first())
    }
}

/// An endpoint descriptor whose header fits it.
pub open spec fn endpoint_well_formed(d: EndpointDescriptor) -> bool {
    d.length == ENDPOINT_DESCRIPTOR_SIZE && d.descriptor_type == USB_DESC_TYPE_ENDPOINT
}

/// The endpoints that a sequence of descriptors stands for.
pub open spec fn fresh_endpoints(endpoints: Seq<EndpointDescriptor>) -> Seq<UsbEndpointDesc> {
    endpoints.map_values(|d: EndpointDescriptor| UsbEndpointDesc { descriptor: d, toggle: 0 })
}

/// Endpoint descriptors are read back, whatever stands before and behind them.
pub proof fn lemma_read_endpoints_back(
    prefix: Seq<u8>,
    endpoints: Seq<EndpointDescriptor>,
    tail: Seq<u8>,
    count: nat,
)
    requires
        forall|i: int| 0 <= i < endpoints.len() ==> endpoint_well_formed(#[trigger] endpoints[i]),
        endpoints.len() == count || (endpoints.len() < count && tail.len() == 0),
    ensures
        read_endpoints(prefix + endpoints_bytes(endpoints) + tail, prefix.len() as int, count) == Some(
            (
                fresh_endpoints(endpoints),
                (prefix + endpoints_bytes(endpoints)).len() as int,
            ),
        ),
    decreases endpoints.len(),
{
    let bytes = prefix + endpoints_bytes(endpoints) + tail;
    if endpoints.len() == 0 {
        assert(fresh_endpoints(endpoints) =~= Seq::empty());
    } else {
        let first = endpoint_bytes(endpoints[0]);
        let rest = endpoints.drop_first();
        let at = bytes.skip(prefix.len() as int);
        assert(at =~= first + endpoints_bytes(rest) + tail);
        assert(endpoint_well_formed(endpoints[0]));
        assert(at.subrange(0, ENDPOINT_DESCRIPTOR_SIZE as int) =~= first);
        assert(find_desc(at, USB_DESC_TYPE_ENDPOINT) == Some((first, ENDPOINT_DESCRIPTOR_SIZE as int)));
        assert(EndpointDescriptor::of(first) == endpoints[0]);
        assert forall|i: int| 0 <= i < rest.len() implies endpoint_well_formed(#[trigger] rest[i]) by {
            assert(rest[i] == endpoints[i + 1]);
        }
        lemma_read_endpoints_back(prefix + first, rest, tail, (count - 1) as nat);
        assert(prefix + first + endpoints_bytes(rest) + tail =~= bytes);
        assert(seq![fresh_endpoint(first)] + fresh_endpoints(rest) =~= fresh_endpoints(endpoints));
    }
}

/// An interface descriptor whose header fits it, with no more endpoint descriptors
/// than it announces.
pub open spec fn setting_well_formed(d: InterfaceDescriptor, endpoints: Seq<EndpointDescriptor>) -> bool {
    &&& d.length == INTERFACE_DESCRIPTOR_SIZE
    &&& d.descriptor_type == USB_DESC_TYPE_INTERFACE
    &&& endpoints.len() <= d.num_endpoints
    &&& forall|i: int| 0 <= i < endpoints.len() ==> endpoint_well_formed(#[trigger] endpoints[i])
}

/// The setting that descriptors stand for: the endpoints in the first slots, and the
/// other slots empty.
pub open spec fn written_setting(d: InterfaceDescriptor, endpoints: Seq<EndpointDescriptor>) -> SettingView {
    SettingView {
        descriptor: d,
        endpoints: endpoint_slots(fresh_endpoints(endpoints), d.num_endpoints as nat),
    }
}

/// What was written is read back: the descriptors of a setting give that setting and
/// use up their bytes. More bytes may follow where all announced endpoints are there.
pub proof fn setting_is_read_back(
    d: InterfaceDescriptor,
    endpoints: Seq<EndpointDescriptor>,
    tail: Seq<u8>,
)
    requires
        setting_well_formed(d, endpoints),
        endpoints.len() == d.num_endpoints || tail.len() == 0,
    ensures
        read_setting(interface_bytes(d) + endpoints_bytes(endpoints) + tail) == Some(
            (
                written_setting(d, endpoints),
                (interface_bytes(d) + endpoints_bytes(endpoints)).len() as int,
            ),
        ),
{
    let head = interface_bytes(d);
    let bytes = head + endpoints_bytes(endpoints) + tail;
    assert(bytes.subrange(0, INTERFACE_DESCRIPTOR_SIZE as int) =~= head);
    assert(find_desc(bytes, USB_DESC_TYPE_INTERFACE) == Some((head, INTERFACE_DESCRIPTOR_SIZE as int)));
    assert(InterfaceDescriptor::of(head) == d);
    lemma_read_endpoints_back(head, endpoints, tail, d.num_endpoints as nat);
}

/// The bytes of a configuration descriptor.
pub open spec fn config_bytes(d: ConfigDescriptor) -> Seq<u8> {
    seq![
        d.length,
        d.descriptor_type,
        (d.total_length % 256) as u8,
        (d.total_length / 256) as u8,
        d.num_interfaces,
        d.configuration_value,
        d.configuration,
        d.attributes,
        d.max_power,
    ]
}

/// The bytes of settings, one after the other.
pub open spec fn settings_bytes(settings: Seq<(InterfaceDescriptor, Seq<EndpointDescriptor>)>) -> Seq<u8>
    decreases settings.len(),
{
    if settings.len() == 0 {
        Seq::empty()
    } else {
        interface_bytes(settings[0].0) + endpoints_bytes(settings[0].1) + settings_bytes(
            settings.drop_first(),
        )
    }
}

/// The settings put behind those of the interfaces that they name.
pub open spec fn grouped(
    settings: Seq<(InterfaceDescriptor, Seq<EndpointDescriptor>)>,
    placed: Seq<Seq<SettingView>>,
) -> Seq<Seq<SettingView>>
    decreases settings.len(),
{
    if settings.len() == 0 {
        placed
    } else {
        let (d, endpoints) = settings[0];
        let number = d.interface_number as int;
        grouped(
            settings.drop_first(),
            placed.update(number, placed[number].push(written_setting(d, endpoints))),
        )
    }
}

/// So many interfaces without any setting.
pub open spec fn no_settings(count: nat) -> Seq<Seq<SettingView>> {
    Seq::new(count, |i: int| Seq::empty())
}

/// A configuration whose descriptors fit together: all announced endpoints are there,
/// and every setting names an interface of the configuration.
pub open spec fn config_well_formed(
    d: ConfigDescriptor,
    settings: Seq<(InterfaceDescriptor, Seq<EndpointDescriptor>)>,
) -> bool {
    &&& d.length == CONFIG_DESCRIPTOR_SIZE
    &&& d.descriptor_type == USB_DESC_TYPE_CONFIG
    &&& d.total_length == (config_bytes(d) + settings_bytes(settings)).len()
    &&& settings_fit(settings, d.num_interfaces as int)
}

/// Every setting is complete and names one of `count` interfaces.
pub open spec fn settings_fit(
    settings: Seq<(InterfaceDescriptor, Seq<EndpointDescriptor>)>,
    count: int,
) -> bool {
    forall|i: int|
        0 <= i < settings.len() ==> {
            let (d, endpoints) = #[trigger] settings[i];
            &&& setting_well_formed(d, endpoints)
            &&& endpoints.len() == d.num_endpoints
            &&& d.interface_number < count
        }
}

/// Grouping settings keeps the interfaces, and takes no setting away.
pub proof fn lemma_grouped_grows(
    settings: Seq<(InterfaceDescriptor, Seq<EndpointDescriptor>)>,
    placed: Seq<Seq<SettingView>>,
)
    requires
        settings_fit(settings, placed.len() as int),
    ensures
        grouped(settings, placed).len() == placed.len(),
        forall|i: int|
            0 <= i < placed.len() ==> placed[i].len() <= (#[trigger] grouped(settings, placed)[i]).len(),
    decreases settings.len(),
{
    if settings.len() > 0 {
        let (d, endpoints) = settings[0];
        let number = d.interface_number as int;
        let rest = settings.drop_first();
        let next = placed.update(number, placed[number].push(written_setting(d, endpoints)));
        assert forall|i: int| 0 <= i < rest.len() implies {
            let (d, endpoints) = #[trigger] rest[i];
            &&& setting_well_formed(d, endpoints)
            &&& endpoints.len() == d.num_endpoints
            &&& d.interface_number < placed.len()
        } by {
            assert(rest[i] == settings[i + 1]);
        }
        lemma_grouped_grows(rest, next);
    }
}

proof fn lemma_place_settings_back(
    prefix: Seq<u8>,
    settings: Seq<(InterfaceDescriptor, Seq<EndpointDescriptor>)>,
    placed: Seq<Seq<SettingView>>,
)
    requires
        settings_fit(settings, placed.len() as int),
        forall|i: int|
            0 <= i < placed.len() ==> (#[trigger] grouped(settings, placed)[i]).len()
                <= USB_MAX_INTERFACE_SETTING,
    ensures
        place_settings(prefix + settings_bytes(settings), prefix.len() as int, placed) == Some(
            grouped(settings, placed),
        ),
    decreases settings.len(),
{
    let bytes = prefix + settings_bytes(settings);
    if settings.len() > 0 {
        let (d, endpoints) = settings[0];
        let number = d.interface_number as int;
        let rest = settings.drop_first();
        let first = interface_bytes(d) + endpoints_bytes(endpoints);
        let next = placed.update(number, placed[number].push(written_setting(d, endpoints)));
        assert(setting_well_formed(d, endpoints));
        assert forall|i: int| 0 <= i < rest.len() implies {
            let (d, endpoints) = #[trigger] rest[i];
            &&& setting_well_formed(d, endpoints)
            &&& endpoints.len() == d.num_endpoints
            &&& d.interface_number < placed.len()
        } by {
            assert(rest[i] == settings[i + 1]);
        }
        setting_is_read_back(d, endpoints, settings_bytes(rest));
        assert(bytes.skip(prefix.len() as int) =~= first + settings_bytes(rest));
        lemma_grouped_grows(rest, next);
        assert(grouped(settings, placed) == grouped(rest, next));
        assert(grouped(settings, placed)[number].len() <= USB_MAX_INTERFACE_SETTING);
        lemma_place_settings_back(prefix + first, rest, next);
        assert(prefix + first + settings_bytes(rest) =~= bytes);
    } else {
        assert(bytes =~= prefix);
    }
}

/// What was written is read back: the descriptors of a configuration and its
/// settings give that configuration, with every setting under the interface that it
/// names and in the order in which they came.
pub proof fn config_is_read_back(
    d: ConfigDescriptor,
    settings: Seq<(InterfaceDescriptor, Seq<EndpointDescriptor>)>,
)
    requires
        config_well_formed(d, settings),
        forall|i: int|
            0 <= i < d.num_interfaces ==> (#[trigger] grouped(
                settings,
                no_settings(d.num_interfaces as nat),
            )[i]).len() <= USB_MAX_INTERFACE_SETTING,
    ensures
        read_config(config_bytes(d) + settings_bytes(settings)) == Some(
            ConfigView {
                descriptor: d,
                interfaces: grouped(settings, no_settings(d.num_interfaces as nat)).map_values(
                    |settings: Seq<SettingView>| InterfaceDescView { settings, active_index: 0 },
                ),
            },
        ),
{
    let head = config_bytes(d);
    let bytes = head + settings_bytes(settings);
    let start = no_settings(d.num_interfaces as nat);
    assert(bytes.subrange(0, CONFIG_DESCRIPTOR_SIZE as int) =~= head);
    assert(find_desc(bytes, USB_DESC_TYPE_CONFIG) == Some((head, CONFIG_DESCRIPTOR_SIZE as int)));
    assert(ConfigDescriptor::of(head) == d);
    assert(bytes.take(bytes.len() as int) =~= bytes);
    lemma_place_settings_back(head, settings, start);
}

} // verus!
