//! Device paths as byte strings, and what the user wants to have connected.

use crate::device_path::{
    le16, u16_from_le, EfiDevicePathProtocol, UsbClassDevicePath, UsbWwidDevicePath,
    DEVICE_PATH_HEADER_SIZE, END_ENTIRE_DEVICE_PATH_SUBTYPE, MSG_USB_CLASS_DP, MSG_USB_DP,
    MSG_USB_WWID_DP, MSG_USB_WWID_SERIAL_NUMBER_OFFSET, TYPE_END, TYPE_MESSAGING,
    USB_CLASS_DEVICE_PATH_SIZE, USB_DEVICE_PATH_SIZE, USB_WWID_DEVICE_PATH_SIZE,
};
use crate::status::Status;
use crate::task::Action;
use crate::usb_bus_defs::{
    DevicePathListItem, UsbBus, UsbDevice, UsbDevicePathList, UsbInterface, USB_BUS_SIGNATURE,
};
use crate::usb_desc::{byte_at, byte_of, word_at, word_of};
use crate::usb_hub::{is_hub_interface, usb_is_hub_interface};
use vstd::prelude::*;
use vstd::slice::{slice_subrange, slice_to_vec};

verus! {

/// The header of the node at an offset.
pub open spec fn node_at(path: Seq<u8>, offset: int) -> EfiDevicePathProtocol {
    EfiDevicePathProtocol {
        node_type: path[offset],
        sub_type: path[offset + 1],
        length: le16(path[offset + 2], path[offset + 3]),
    }
}

/// A node ends the whole path.
pub open spec fn ends_path(node: EfiDevicePathProtocol) -> bool {
    node.node_type == TYPE_END && node.sub_type == END_ENTIRE_DEVICE_PATH_SUBTYPE
}

/// A node names a USB device.
pub open spec fn names_usb(node: EfiDevicePathProtocol) -> bool {
    node.node_type == TYPE_MESSAGING && (node.sub_type == MSG_USB_DP || node.sub_type == MSG_USB_CLASS_DP
        || node.sub_type == MSG_USB_WWID_DP)
}

/// Returns whether a node ends the whole path.
pub fn is_end_node(node: &EfiDevicePathProtocol) -> (r: bool)
    ensures
        r == ends_path(*node),
{
    node.node_type == TYPE_END && node.sub_type == END_ENTIRE_DEVICE_PATH_SUBTYPE
}

/// Returns whether a node names a USB device.
pub fn is_usb_node(node: &EfiDevicePathProtocol) -> (r: bool)
    ensures
        r == names_usb(*node),
{
    node.node_type == TYPE_MESSAGING && (node.sub_type == MSG_USB_DP || node.sub_type == MSG_USB_CLASS_DP
        || node.sub_type == MSG_USB_WWID_DP)
}

/// Returns the length of a node, with its header.
pub fn node_length(node: &EfiDevicePathProtocol) -> (r: usize)
    ensures
        r == node.length,
{
    node.length as usize
}

fn read_node(path: &[u8], offset: usize) -> (r: EfiDevicePathProtocol)
    requires
        offset + DEVICE_PATH_HEADER_SIZE <= path@.len(),
    ensures
        r == node_at(path@, offset as int),
{
    EfiDevicePathProtocol {
        node_type: path[offset],
        sub_type: path[offset + 1],
        length: u16_from_le(path[offset + 2], path[offset + 3]),
    }
}

/// Returns the header of the first node.
pub fn device_path_node_from_bytes(path: &[u8]) -> (r: Option<EfiDevicePathProtocol>)
    ensures
        r == (if path@.len() < DEVICE_PATH_HEADER_SIZE {
            None
        } else {
            Some(node_at(path@, 0))
        }),
{
    if path.len() < DEVICE_PATH_HEADER_SIZE {
        None
    } else {
        Some(read_node(path, 0))
    }
}

/// A whole node lies at an offset.
pub open spec fn node_fits(path: Seq<u8>, offset: int) -> bool {
    &&& 0 <= offset
    &&& offset + DEVICE_PATH_HEADER_SIZE <= path.len()
    &&& node_at(path, offset).length >= DEVICE_PATH_HEADER_SIZE
    &&& offset + node_at(path, offset).length <= path.len()
}

/// The offset behind the end node of the path that starts at `offset`, where the path
/// has one and its nodes are whole.
pub open spec fn path_end(path: Seq<u8>, offset: int) -> Option<int>
    decreases path.len() - offset,
{
    if !node_fits(path, offset) {
        None
    } else if ends_path(node_at(path, offset)) {
        Some(offset + node_at(path, offset).length)
    } else {
        path_end(path, offset + node_at(path, offset).length)
    }
}

proof fn lemma_path_end_bounds(path: Seq<u8>, offset: int)
    ensures
        path_end(path, offset) matches Some(end) ==> offset + DEVICE_PATH_HEADER_SIZE <= end <= path.len(),
    decreases path.len() - offset,
{
    if node_fits(path, offset) && !ends_path(node_at(path, offset)) {
        lemma_path_end_bounds(path, offset + node_at(path, offset).length);
    }
}

/// Returns the size of a device path with its end node.
pub fn device_path_temp_size(path: &[u8]) -> (r: Option<usize>)
    ensures
        match r {
            Some(size) => path_end(path@, 0) == Some(size as int) && DEVICE_PATH_HEADER_SIZE <= size
                <= path@.len(),
            None => path_end(path@, 0) is None,
        },
{
    let mut offset: usize = 0;
    loop
        invariant
            offset <= path@.len(),
            path_end(path@, 0) == path_end(path@, offset as int),
        decreases path@.len() - offset,
    {
        if path.len() - offset < DEVICE_PATH_HEADER_SIZE {
            return None;
        }
        let node = read_node(path, offset);
        let length: usize = node_length(&node);
        if length < DEVICE_PATH_HEADER_SIZE || length > path.len() - offset {
            return None;
        }
        offset = offset + length;
        if is_end_node(&node) {
            return Some(offset);
        }
    }
}

/// Releases a device path.
pub fn usb_free_device_path(path: &mut Vec<u8>) -> (r: Result<(), Status>)
    ensures
        match path_end(old(path)@, 0) {
            Some(_) => r == Ok::<(), Status>(()) && final(path)@.len() == 0,
            None => r == Err::<(), Status>(Status::InvalidParameter) && *final(path) == *old(path),
        },
{
    match device_path_temp_size(path.as_slice()) {
        Some(_) => {
            *path = Vec::new();
            Ok(())
        },
        None => Err(Status::InvalidParameter),
    }
}

/// The bytes of an end node.
pub open spec fn end_node_bytes() -> Seq<u8> {
    seq![TYPE_END, END_ENTIRE_DEVICE_PATH_SUBTYPE, 4u8, 0u8]
}

/// The device path that selects all USB devices: a class node with wildcards, and an
/// end node.
pub open spec fn all_usb_path() -> Seq<u8> {
    seq![
        TYPE_MESSAGING,
        MSG_USB_CLASS_DP,
        11u8,
        0u8,
        0xffu8,
        0xffu8,
        0xffu8,
        0xffu8,
        0xffu8,
        0xffu8,
        0xffu8,
        TYPE_END,
        END_ENTIRE_DEVICE_PATH_SUBTYPE,
        4u8,
        0u8,
    ]
}

fn same_bytes(a: &[u8], b: &[u8]) -> (r: bool)
    ensures
        r == (a@ == b@),
{
    if a.len() != b.len() {
        return false;
    }
    let mut i: usize = 0;
    while i < a.len()
        invariant
            a@.len() == b@.len(),
            i <= a@.len(),
            forall|j: int| 0 <= j < i ==> a@[j] == b@[j],
        decreases a@.len() - i,
    {
        if a[i] != b[i] {
            assert(a@[i as int] != b@[i as int]);
            return false;
        }
        i = i + 1;
    }
    assert(a@ =~= b@);
    true
}

fn make_all_usb_path() -> (r: Vec<u8>)
    ensures
        r@ == all_usb_path(),
{
    let path: Vec<u8> = vec![
        TYPE_MESSAGING,
        MSG_USB_CLASS_DP,
        11u8,
        0u8,
        0xffu8,
        0xffu8,
        0xffu8,
        0xffu8,
        0xffu8,
        0xffu8,
        0xffu8,
        TYPE_END,
        END_ENTIRE_DEVICE_PATH_SUBTYPE,
        4u8,
        0u8,
    ];
    assert(path@ =~= all_usb_path());
    path
}

/// Returns whether a path selects all USB devices.
pub fn is_all_usb_class_device_path(path: &[u8]) -> (r: bool)
    ensures
        r == (path@ == all_usb_path()),
{
    let all: Vec<u8> = make_all_usb_path();
    same_bytes(path, all.as_slice())
}

/// The number of characters in the serial number of a WWID node with a given length.
pub open spec fn serial_length(node_length: int) -> Option<int> {
    let bytes = node_length - MSG_USB_WWID_SERIAL_NUMBER_OFFSET;
    if bytes > 0 && bytes % 2 == 0 {
        Some(bytes / 2)
    } else {
        None
    }
}

/// Returns the number of characters in the serial number of a WWID node.
pub fn wwid_serial_length(node_length: usize) -> (r: Option<usize>)
    ensures
        match r {
            Some(length) => serial_length(node_length as int) == Some(length as int),
            None => serial_length(node_length as int) is None,
        },
{
    if node_length < MSG_USB_WWID_SERIAL_NUMBER_OFFSET {
        return None;
    }
    let serial_bytes: usize = node_length - MSG_USB_WWID_SERIAL_NUMBER_OFFSET;
    if serial_bytes == 0 || serial_bytes % 2 != 0 {
        return None;
    }
    Some(serial_bytes / 2)
}

/// The work that opens the host controller for a child, where all handles are there.
pub open spec fn open_host(bus: UsbBus, child: usize) -> Option<Action> {
    if bus.host_handle == 0 || bus.agent == 0 || child == 0 {
        None
    } else {
        Some(Action::OpenHostProtocol { host: bus.host_handle, agent: bus.agent, child })
    }
}

/// The work that closes the host controller for a child, where all handles are there.
pub open spec fn close_host(bus: UsbBus, child: usize) -> Option<Action> {
    if bus.host_handle == 0 || bus.agent == 0 || child == 0 {
        None
    } else {
        Some(Action::CloseHostProtocol { host: bus.host_handle, agent: bus.agent, child })
    }
}

/// Builds the request that opens the host controller for a child.
pub fn usb_open_host_proto_by_child(bus: &UsbBus, child: usize) -> (r: Option<Action>)
    ensures
        r == open_host(*bus, child),
{
    if bus.host_handle == 0 || bus.agent == 0 || child == 0 {
        None
    } else {
        Some(Action::OpenHostProtocol { host: bus.host_handle, agent: bus.agent, child })
    }
}

/// Builds the request that closes the host controller for a child.
pub fn usb_close_host_proto_by_child(bus: &UsbBus, child: usize) -> (r: Option<Action>)
    ensures
        r == close_host(*bus, child),
{
    if bus.host_handle == 0 || bus.agent == 0 || child == 0 {
        None
    } else {
        Some(Action::CloseHostProtocol { host: bus.host_handle, agent: bus.agent, child })
    }
}

/// The offset of the first node from `offset` on that names a USB device or ends the
/// path.
pub open spec fn usb_begin(path: Seq<u8>, offset: int) -> int
    decreases path.len() - offset,
{
    if !node_fits(path, offset) || ends_path(node_at(path, offset)) || names_usb(node_at(path, offset)) {
        offset
    } else {
        usb_begin(path, offset + node_at(path, offset).length)
    }
}

/// The offset behind the nodes from `offset` on that name USB devices.
pub open spec fn usb_end(path: Seq<u8>, offset: int) -> int
    decreases path.len() - offset,
{
    if !node_fits(path, offset) || !names_usb(node_at(path, offset)) {
        offset
    } else {
        usb_end(path, offset + node_at(path, offset).length)
    }
}

/// The first contiguous USB part of a full device path, with an end node.
pub open spec fn usb_part(path: Seq<u8>) -> Option<Seq<u8>> {
    let begin = usb_begin(path, 0);
    let end = usb_end(path, begin);
    if path_end(path, 0) is None || end == begin {
        None
    } else {
        Some(path.subrange(begin, end) + end_node_bytes())
    }
}

/// Copies the first contiguous USB part of a full device path.
pub fn get_usb_dp_from_full_dp(path: &[u8]) -> (r: Option<Vec<u8>>)
    ensures
        match r {
            Some(part) => usb_part(path@) == Some(part@),
            None => usb_part(path@) is None,
        },
{
    match device_path_temp_size(path) {
        Some(_) => {},
        None => return None,
    }
    let ghost total = path_end(path@, 0);
    let size: usize = path.len();
    let mut begin: usize = 0;
    loop
        invariant_except_break
            usb_begin(path@, 0) == usb_begin(path@, begin as int),
        invariant
            begin <= path@.len() == size,
            total is Some,
            path_end(path@, begin as int) == total,
        ensures
            usb_begin(path@, 0) == begin,
        decreases path@.len() - begin,
    {
        let node = read_node(path, begin);
        if is_end_node(&node) || is_usb_node(&node) {
            break;
        }
        begin = begin + node_length(&node);
        proof {
            lemma_path_end_bounds(path@, begin as int);
        }
    }
    let mut end: usize = begin;
    loop
        invariant_except_break
            usb_end(path@, begin as int) == usb_end(path@, end as int),
        invariant
            begin <= end <= path@.len() == size,
            total is Some,
            path_end(path@, end as int) == total,
        ensures
            usb_end(path@, begin as int) == end,
        decreases path@.len() - end,
    {
        let node = read_node(path, end);
        if !is_usb_node(&node) {
            break;
        }
        end = end + node_length(&node);
        proof {
            lemma_path_end_bounds(path@, end as int);
        }
    }
    if end == begin {
        return None;
    }
    let mut part: Vec<u8> = slice_to_vec(slice_subrange(path, begin, end));
    part.push(TYPE_END);
    part.push(END_ENTIRE_DEVICE_PATH_SUBTYPE);
    part.push(4);
    part.push(0);
    assert(part@ =~= path@.subrange(begin as int, end as int) + end_node_bytes());
    Some(part)
}

proof fn lemma_usb_end_bounds(path: Seq<u8>, offset: int)
    requires
        0 <= offset <= path.len(),
    ensures
        offset <= usb_end(path, offset) <= path.len(),
        usb_end(path, offset) > offset <==> node_fits(path, offset) && names_usb(node_at(path, offset)),
    decreases path.len() - offset,
{
    if node_fits(path, offset) && names_usb(node_at(path, offset)) {
        lemma_usb_end_bounds(path, offset + node_at(path, offset).length);
    }
}

proof fn lemma_usb_begin_bounds(path: Seq<u8>, offset: int)
    requires
        0 <= offset <= path.len(),
    ensures
        offset <= usb_begin(path, offset) <= path.len(),
    decreases path.len() - offset,
{
    if node_fits(path, offset) && !ends_path(node_at(path, offset)) && !names_usb(node_at(path, offset)) {
        lemma_usb_begin_bounds(path, offset + node_at(path, offset).length);
    }
}

proof fn lemma_part_nodes(path: Seq<u8>, begin: int, offset: int)
    requires
        0 <= begin <= offset <= usb_end(path, begin) <= path.len(),
        usb_end(path, offset) == usb_end(path, begin),
    ensures
        ({
            let end = usb_end(path, begin);
            let part = path.subrange(begin, end) + end_node_bytes();
            &&& path_end(part, offset - begin) == Some(part.len() as int)
            &&& usb_end(part, offset - begin) == end - begin
        }),
    decreases path.len() - offset,
{
    let end = usb_end(path, begin);
    let part = path.subrange(begin, end) + end_node_bytes();
    let at = offset - begin;
    lemma_usb_end_bounds(path, offset);
    if offset < end {
        let length = node_at(path, offset).length;
        lemma_usb_end_bounds(path, offset + length);
        assert(part[at] == path[offset] && part[at + 1] == path[offset + 1] && part[at + 2]
            == path[offset + 2] && part[at + 3] == path[offset + 3]);
        assert(node_at(part, at) == node_at(path, offset));
        lemma_part_nodes(path, begin, offset + length);
    } else {
        assert(part[at] == end_node_bytes()[0] && part[at + 1] == end_node_bytes()[1] && part[at + 2]
            == end_node_bytes()[2] && part[at + 3] == end_node_bytes()[3]);
        assert(node_at(part, at).length == 4);
    }
}

/// The USB part of a path is a whole device path of its own, and it is its own USB
/// part.
pub proof fn usb_part_is_stable(path: Seq<u8>)
    ensures
        usb_part(path) matches Some(part) ==> path_end(part, 0) == Some(part.len() as int)
            && usb_part(part) == Some(part),
{
    let begin = usb_begin(path, 0);
    lemma_usb_begin_bounds(path, 0);
    lemma_usb_end_bounds(path, begin);
    let end = usb_end(path, begin);
    if usb_part(path) is Some {
        let part = path.subrange(begin, end) + end_node_bytes();
        lemma_part_nodes(path, begin, begin);
        assert(part[0] == path[begin] && part[1] == path[begin + 1] && part[2] == path[begin + 2]
            && part[3] == path[begin + 3]);
        assert(node_at(part, 0) == node_at(path, begin));
        assert(usb_begin(part, 0) == 0);
        assert(part.subrange(0, end - begin) =~= path.subrange(begin, end));
    }
}

impl UsbDevicePathList {
    /// Returns an empty list.
    pub fn new() -> (r: UsbDevicePathList)
        ensures
            r.paths() == Seq::<Seq<u8>>::empty(),
    {
        let list = UsbDevicePathList { items: Vec::new() };
        assert(list.paths() =~= Seq::<Seq<u8>>::empty());
        list
    }

    /// Empties the list.
    pub fn initialize_list_head(&mut self)
        ensures
            final(self).paths() == Seq::<Seq<u8>>::empty(),
    {
        self.items = Vec::new();
        assert(self.paths() =~= Seq::<Seq<u8>>::empty());
    }

    /// Returns whether a path is in the list.
    pub fn contains(&self, path: &[u8]) -> (r: bool)
        ensures
            r == self.paths().contains(path@),
    {
        let mut i: usize = 0;
        while i < self.items.len()
            invariant
                i <= self.items@.len(),
                forall|j: int| 0 <= j < i ==> #[trigger] self.paths()[j] != path@,
            decreases self.items@.len() - i,
        {
            assert(self.paths()[i as int] == self.items@[i as int].device_path@);
            if same_bytes(self.items[i].device_path.as_slice(), path) {
                return true;
            }
            i = i + 1;
        }
        false
    }

    /// Adds a path at the end of the list.
    pub fn insert_tail_list(&mut self, path: Vec<u8>)
        ensures
            final(self).paths() == old(self).paths().push(path@),
    {
        let ghost before = self.paths();
        let ghost added = path@;
        self.items.push(DevicePathListItem { device_path: path });
        assert(self.paths() =~= before.push(added));
    }
}

/// A list holds a path, up to the end of the path.
pub open spec fn lists_path(paths: Seq<Seq<u8>>, path: Seq<u8>) -> bool {
    path_end(path, 0) matches Some(size) && paths.contains(path.take(size))
}

/// Searches the list for an identical device path.
pub fn search_usb_dp_in_list(usb_dp: &[u8], list: Option<&UsbDevicePathList>) -> (r: bool)
    ensures
        r == (list matches Some(list) && lists_path(list.paths(), usb_dp@)),
        list is None || path_end(usb_dp@, 0) is None ==> !r,
{
    match list {
        Some(list) => match device_path_temp_size(usb_dp) {
            Some(size) => {
                assert(usb_dp@.subrange(0, size as int) =~= usb_dp@.take(size as int));
                list.contains(slice_subrange(usb_dp, 0, size))
            },
            None => false,
        },
        None => false,
    }
}

/// The list with a path added behind the others, unless it is there already.
pub open spec fn with_path(paths: Seq<Seq<u8>>, path: Seq<u8>) -> Seq<Seq<u8>> {
    if paths.contains(path) {
        paths
    } else {
        paths.push(path)
    }
}

/// Adds a device path to the list unless it is there already.
pub fn add_usb_dp_to_list(usb_dp: &[u8], list: Option<&mut UsbDevicePathList>) -> (r: Result<(), Status>)
    ensures
        r == (if list is Some && path_end(usb_dp@, 0) is Some {
            Ok::<(), Status>(())
        } else {
            Err::<(), Status>(Status::InvalidParameter)
        }),
        match list {
            Some(l) => match path_end(usb_dp@, 0) {
                Some(size) => final(l).paths() == with_path(l.paths(), usb_dp@.take(size)),
                None => *final(l) == *l,
            },
            None => true,
        },
{
    let list = match list {
        Some(list) => list,
        None => return Err(Status::InvalidParameter),
    };
    let size: usize = match device_path_temp_size(usb_dp) {
        Some(size) => size,
        None => return Err(Status::InvalidParameter),
    };
    assert(usb_dp@.subrange(0, size as int) =~= usb_dp@.take(size as int));
    if !search_usb_dp_in_list(usb_dp, Some(&*list)) {
        list.insert_tail_list(slice_to_vec(slice_subrange(usb_dp, 0, size)));
    }
    Ok(())
}

/// A wanted value that is the actual one or a wildcard.
pub open spec fn accepts8(wanted: u8, actual: u8) -> bool {
    wanted == actual || wanted == 0xff
}

/// A wanted value that is the actual one or a wildcard.
pub open spec fn accepts16(wanted: u16, actual: u16) -> bool {
    wanted == actual || wanted == 0xffff
}

/// A class node selects an interface. Every hub is selected. A device that leaves its
/// class to its interfaces is judged by the interface.
pub open spec fn class_selects(path: UsbClassDevicePath, interface: UsbInterface, device: UsbDevice) -> bool {
    &&& path.header.node_type == TYPE_MESSAGING
    &&& path.header.sub_type == MSG_USB_CLASS_DP
    &&& interface.setting() matches Some(setting)
    &&& device.dev_desc matches Some(desc)
    &&& is_hub_interface(interface) || {
        &&& accepts16(path.vendor_id, desc.descriptor.id_vendor)
        &&& accepts16(path.product_id, desc.descriptor.id_product)
        &&& if desc.descriptor.device_class == 0 {
            &&& accepts8(path.device_class, setting.descriptor.interface_class)
            &&& accepts8(path.device_sub_class, setting.descriptor.interface_sub_class)
            &&& accepts8(path.device_protocol, setting.descriptor.interface_protocol)
        } else {
            &&& accepts8(path.device_class, desc.descriptor.device_class)
            &&& accepts8(path.device_sub_class, desc.descriptor.device_sub_class)
            &&& accepts8(path.device_protocol, desc.descriptor.device_protocol)
        }
    }
}

/// Matches a class node against the descriptors of an interface and its device.
pub fn match_usb_class(path: &UsbClassDevicePath, interface: &UsbInterface, device: &UsbDevice) -> (r: bool)
    ensures
        r == class_selects(*path, *interface, *device),
{
    if path.header.node_type != TYPE_MESSAGING || path.header.sub_type != MSG_USB_CLASS_DP {
        return false;
    }
    let active = match interface.get_setting() {
        Some(setting) => setting.descriptor,
        None => return false,
    };
    let desc = match &device.dev_desc {
        Some(desc) => desc.descriptor,
        None => return false,
    };
    if usb_is_hub_interface(interface) {
        return true;
    }
    (path.vendor_id == 0xffff || path.vendor_id == desc.id_vendor) && (path.product_id == 0xffff
        || path.product_id == desc.id_product) && if desc.device_class == 0 {
        (path.device_class == active.interface_class || path.device_class == 0xff) && (
        path.device_sub_class == active.interface_sub_class || path.device_sub_class == 0xff) && (
        path.device_protocol == active.interface_protocol || path.device_protocol == 0xff)
    } else {
        (path.device_class == desc.device_class || path.device_class == 0xff) && (path.device_sub_class
            == desc.device_sub_class || path.device_sub_class == 0xff) && (path.device_protocol
            == desc.device_protocol || path.device_protocol == 0xff)
    }
}

/// What a wanted path says of an interface. The serial number of a device is only
/// known once the device has been asked for it.
#[derive(Clone, Copy, Debug, PartialEq, Eq, Structural)]
pub enum Judgement {
    No,
    Yes,
    AskSerial,
}

/// What a WWID node says of an interface, before the serial number is looked at.
/// Every hub is selected.
pub open spec fn wwid_judges(path: UsbWwidDevicePath, interface: UsbInterface, device: UsbDevice) -> Judgement {
    match (interface.setting(), device.dev_desc) {
        (Some(setting), Some(desc)) => if path.header.node_type != TYPE_MESSAGING
            || path.header.sub_type != MSG_USB_WWID_DP {
            Judgement::No
        } else if is_hub_interface(interface) {
            Judgement::Yes
        } else if path.vendor_id == desc.descriptor.id_vendor && path.product_id
            == desc.descriptor.id_product && path.interface_number == setting.descriptor.interface_number
            && desc.descriptor.str_serial_number != 0 && serial_length(path.header.length as int) is Some {
            Judgement::AskSerial
        } else {
            Judgement::No
        },
        _ => Judgement::No,
    }
}

/// Matches a WWID node against the descriptors of an interface and its device, up to
/// the serial number.
pub fn match_usb_wwid(path: &UsbWwidDevicePath, interface: &UsbInterface, device: &UsbDevice) -> (r:
    Judgement)
    ensures
        r == wwid_judges(*path, *interface, *device),
{
    if path.header.node_type != TYPE_MESSAGING || path.header.sub_type != MSG_USB_WWID_DP {
        return Judgement::No;
    }
    let active = match interface.get_setting() {
        Some(setting) => setting.descriptor,
        None => return Judgement::No,
    };
    let desc = match &device.dev_desc {
        Some(desc) => desc.descriptor,
        None => return Judgement::No,
    };
    if usb_is_hub_interface(interface) {
        return Judgement::Yes;
    }
    if path.vendor_id != desc.id_vendor || path.product_id != desc.id_product || path.interface_number
        != active.interface_number as u16 || desc.str_serial_number == 0 {
        return Judgement::No;
    }
    match wwid_serial_length(node_length(&path.header)) {
        Some(_) => Judgement::AskSerial,
        None => Judgement::No,
    }
}

/// The serial number in a WWID node, without a terminating zero.
pub open spec fn wanted_serial(path: Seq<u8>) -> Seq<u16> {
    let count = match serial_length(word_of(path, 2) as int) {
        Some(count) => count,
        None => 0,
    };
    let serial = Seq::new(
        count as nat,
        |i: int| word_of(path, MSG_USB_WWID_SERIAL_NUMBER_OFFSET + 2 * i),
    );
    if serial.len() > 0 && serial.last() == 0 {
        serial.drop_last()
    } else {
        serial
    }
}

/// Returns the serial number in a WWID node.
pub fn read_wanted_serial(path: &[u8]) -> (r: Vec<u16>)
    ensures
        r@ == wanted_serial(path@),
{
    let count: usize = match wwid_serial_length(word_at(path, 2) as usize) {
        Some(count) => count,
        None => 0,
    };
    let ghost serial = Seq::new(
        count as nat,
        |i: int| word_of(path@, MSG_USB_WWID_SERIAL_NUMBER_OFFSET + 2 * i),
    );
    let mut units: Vec<u16> = Vec::new();
    while units.len() < count
        invariant
            units@.len() <= count <= u16::MAX,
            serial == Seq::new(
                count as nat,
                |i: int| word_of(path@, MSG_USB_WWID_SERIAL_NUMBER_OFFSET + 2 * i),
            ),
            units@ == serial.take(units@.len() as int),
        decreases count - units@.len(),
    {
        units.push(word_at(path, MSG_USB_WWID_SERIAL_NUMBER_OFFSET + 2 * units.len()));
        proof {
            assert(units@ =~= serial.take(units@.len() as int));
        }
    }
    assert(units@ =~= serial);
    if units.len() > 0 && units[units.len() - 1] == 0 {
        let _ = units.pop();
    }
    units
}

/// A text ends with another one.
pub open spec fn has_suffix(text: Seq<u16>, suffix: Seq<u16>) -> bool {
    suffix.len() <= text.len() && text.subrange(text.len() - suffix.len(), text.len() as int) == suffix
}

/// Returns whether a text ends with another one.
pub fn ends_with(text: &[u16], suffix: &[u16]) -> (r: bool)
    ensures
        r == has_suffix(text@, suffix@),
{
    if suffix.len() > text.len() {
        return false;
    }
    let size: usize = text.len();
    let from: usize = size - suffix.len();
    let ghost tail = text@.subrange(from as int, text@.len() as int);
    let mut i: usize = 0;
    while i < suffix.len()
        invariant
            i <= suffix@.len(),
            from + suffix@.len() == text@.len() == size,
            tail == text@.subrange(from as int, text@.len() as int),
            forall|j: int| 0 <= j < i ==> tail[j] == suffix@[j],
        decreases suffix@.len() - i,
    {
        assert(tail[i as int] == text@[from + i]);
        if text[from + i] != suffix[i] {
            return false;
        }
        i = i + 1;
    }
    assert(tail =~= suffix@);
    true
}

/// The class node at the start of a path.
pub open spec fn class_node(path: Seq<u8>) -> UsbClassDevicePath {
    UsbClassDevicePath {
        header: node_at(path, 0),
        vendor_id: word_of(path, 4),
        product_id: word_of(path, 6),
        device_class: byte_of(path, 8),
        device_sub_class: byte_of(path, 9),
        device_protocol: byte_of(path, 10),
    }
}

/// The WWID node at the start of a path.
pub open spec fn wwid_node(path: Seq<u8>) -> UsbWwidDevicePath {
    UsbWwidDevicePath {
        header: node_at(path, 0),
        interface_number: word_of(path, 4),
        vendor_id: word_of(path, 6),
        product_id: word_of(path, 8),
    }
}

/// What a wanted path says of an interface whose own path has the USB part
/// `interface_path`: a port path has to be the same, a class or WWID node has to
/// match.
pub open spec fn judges(
    wanted: Seq<u8>,
    interface_path: Seq<u8>,
    interface: UsbInterface,
    device: UsbDevice,
) -> Judgement {
    let header = node_at(wanted, 0);
    if wanted.len() < DEVICE_PATH_HEADER_SIZE || header.node_type != TYPE_MESSAGING {
        Judgement::No
    } else if header.sub_type == MSG_USB_DP {
        if wanted == interface_path {
            Judgement::Yes
        } else {
            Judgement::No
        }
    } else if header.sub_type == MSG_USB_CLASS_DP {
        if header.length == USB_CLASS_DEVICE_PATH_SIZE && wanted.len() >= USB_CLASS_DEVICE_PATH_SIZE
            && class_selects(class_node(wanted), interface, device) {
            Judgement::Yes
        } else {
            Judgement::No
        }
    } else if header.sub_type == MSG_USB_WWID_DP {
        if USB_WWID_DEVICE_PATH_SIZE <= header.length <= wanted.len() {
            wwid_judges(wwid_node(wanted), interface, device)
        } else {
            Judgement::No
        }
    } else {
        Judgement::No
    }
}

/// Returns what a wanted path says of an interface.
pub fn judge_path(
    wanted: &[u8],
    interface_path: &[u8],
    interface: &UsbInterface,
    device: &UsbDevice,
) -> (r: Judgement)
    ensures
        r == judges(wanted@, interface_path@, *interface, *device),
{
    let header = match device_path_node_from_bytes(wanted) {
        Some(header) => header,
        None => return Judgement::No,
    };
    if header.node_type != TYPE_MESSAGING {
        return Judgement::No;
    }
    if header.sub_type == MSG_USB_DP {
        return if same_bytes(wanted, interface_path) {
            Judgement::Yes
        } else {
            Judgement::No
        };
    }
    if header.sub_type == MSG_USB_CLASS_DP {
        if node_length(&header) != USB_CLASS_DEVICE_PATH_SIZE || wanted.len() < USB_CLASS_DEVICE_PATH_SIZE {
            return Judgement::No;
        }
        let node = UsbClassDevicePath {
            header,
            vendor_id: word_at(wanted, 4),
            product_id: word_at(wanted, 6),
            device_class: byte_at(wanted, 8),
            device_sub_class: byte_at(wanted, 9),
            device_protocol: byte_at(wanted, 10),
        };
        return if match_usb_class(&node, interface, device) {
            Judgement::Yes
        } else {
            Judgement::No
        };
    }
    if header.sub_type == MSG_USB_WWID_DP {
        let size: usize = node_length(&header);
        if size < USB_WWID_DEVICE_PATH_SIZE || size > wanted.len() {
            return Judgement::No;
        }
        let node = UsbWwidDevicePath {
            header,
            interface_number: word_at(wanted, 4),
            vendor_id: word_at(wanted, 6),
            product_id: word_at(wanted, 8),
        };
        return match_usb_wwid(&node, interface, device);
    }
    Judgement::No
}

/// Frees all paths in the list.
pub fn usb_bus_free_usb_dp_list(list: Option<&mut UsbDevicePathList>) -> (r: Result<(), Status>)
    ensures
        match list {
            Some(l) => r == Ok::<(), Status>(()) && final(l).paths() == Seq::<Seq<u8>>::empty(),
            None => r == Err::<(), Status>(Status::InvalidParameter),
        },
{
    match list {
        Some(list) => {
            list.initialize_list_head();
            Ok(())
        },
        None => Err(Status::InvalidParameter),
    }
}

/// The wanted paths after `remaining` was asked for; or nothing, where the request is
/// refused. No path at all stands for all USB devices and takes the place of what was
/// wanted before. A path that is at its end asks for nothing.
pub open spec fn wanted_after(paths: Seq<Seq<u8>>, remaining: Option<Seq<u8>>) -> Option<Seq<Seq<u8>>> {
    match remaining {
        None => Some(seq![all_usb_path()]),
        Some(path) => if path.len() < DEVICE_PATH_HEADER_SIZE {
            None
        } else if ends_path(node_at(path, 0)) {
            Some(paths)
        } else if !names_usb(node_at(path, 0)) {
            None
        } else {
            match usb_part(path) {
                Some(part) => Some(with_path(paths, part)),
                None => None,
            }
        },
    }
}

/// Records the USB part of a remaining device path as wanted.
pub fn usb_bus_add_wanted_usb_io_dp(bus: &mut UsbBus, remaining_device_path: Option<&[u8]>) -> (r: Result<
    (),
    Status,
>)
    ensures
        *final(bus) == (UsbBus {
            wanted_usb_io_dp_list: final(bus).wanted_usb_io_dp_list,
            ..*old(bus)
        }),
        match wanted_after(
            old(bus).wanted_usb_io_dp_list.paths(),
            match remaining_device_path {
                Some(path) => Some(path@),
                None => None,
            },
        ) {
            Some(paths) if old(bus).signature == USB_BUS_SIGNATURE => r == Ok::<(), Status>(())
                && final(bus).wanted_usb_io_dp_list.paths() == paths,
            _ => r == Err::<(), Status>(Status::InvalidParameter)
                && final(bus).wanted_usb_io_dp_list.paths() == old(bus).wanted_usb_io_dp_list.paths(),
        },
{
    if bus.signature != USB_BUS_SIGNATURE {
        return Err(Status::InvalidParameter);
    }
    let device_path: Vec<u8> = match remaining_device_path {
        None => {
            bus.wanted_usb_io_dp_list.initialize_list_head();
            let all: Vec<u8> = make_all_usb_path();
            bus.wanted_usb_io_dp_list.insert_tail_list(all);
            assert(bus.wanted_usb_io_dp_list.paths() =~= seq![all_usb_path()]);
            return Ok(());
        },
        Some(path) => {
            let node = match device_path_node_from_bytes(path) {
                Some(node) => node,
                None => return Err(Status::InvalidParameter),
            };
            if is_end_node(&node) {
                return Ok(());
            }
            if !is_usb_node(&node) {
                return Err(Status::InvalidParameter);
            }
            match get_usb_dp_from_full_dp(path) {
                Some(part) => part,
                None => return Err(Status::InvalidParameter),
            }
        },
    };
    if !bus.wanted_usb_io_dp_list.contains(device_path.as_slice()) {
        bus.wanted_usb_io_dp_list.insert_tail_list(device_path);
    }
    Ok(())
}

/// No path is wanted twice.
pub open spec fn listed_once(paths: Seq<Seq<u8>>) -> bool {
    forall|i: int, j: int| 0 <= i < j < paths.len() ==> paths[i] != paths[j]
}

/// Asking for a path keeps every path listed once; the USB part of the path is wanted
/// afterwards, and what was wanted before still is.
pub proof fn a_wanted_path_is_listed_once(paths: Seq<Seq<u8>>, path: Seq<u8>)
    requires
        listed_once(paths),
    ensures
        wanted_after(paths, Some(path)) matches Some(after) ==> {
            &&& listed_once(after)
            &&& forall|p: Seq<u8>| paths.contains(p) ==> after.contains(p)
            &&& !ends_path(node_at(path, 0)) ==> (usb_part(path) matches Some(part) && after.contains(part))
        },
{
    if let Some(after) = wanted_after(paths, Some(path)) {
        if let Some(part) = usb_part(path) {
            if after == paths.push(part) && !paths.contains(part) {
                assert(after[paths.len() as int] == part);
                assert forall|p: Seq<u8>| paths.contains(p) implies after.contains(p) by {
                    let i = choose|i: int| 0 <= i < paths.len() && paths[i] == p;
                    assert(after[i] == p);
                }
                assert forall|i: int, j: int| 0 <= i < j < after.len() implies after[i] != after[j] by {
                    if j == paths.len() {
                        assert(paths.contains(paths[i]));
                    }
                }
            }
        }
    }
}

/// Asking for the same path again changes nothing.
pub proof fn asking_again_changes_nothing(paths: Seq<Seq<u8>>, path: Option<Seq<u8>>)
    ensures
        wanted_after(paths, path) matches Some(after) ==> wanted_after(after, path) == Some(after),
{
    if let Some(p) = path {
        if let Some(part) = usb_part(p) {
            if !paths.contains(part) {
                assert(paths.push(part)[paths.len() as int] == part);
            }
        }
    }
}

/// The offset of the end node of the path that starts at `offset`.
pub open spec fn end_offset(path: Seq<u8>, offset: int) -> Option<int>
    decreases path.len() - offset,
{
    if offset < 0 || offset + DEVICE_PATH_HEADER_SIZE > path.len() {
        None
    } else if ends_path(node_at(path, offset)) {
        Some(offset)
    } else if !node_fits(path, offset) {
        None
    } else {
        end_offset(path, offset + node_at(path, offset).length)
    }
}

/// The bytes of the node of a USB interface.
pub open spec fn usb_node_bytes(parent_port: u8, interface_number: u8) -> Seq<u8> {
    seq![TYPE_MESSAGING, MSG_USB_DP, 6u8, 0u8, parent_port, interface_number]
}

/// The device path of an interface behind a port: the path of the hub with a node put
/// in before its end node.
pub open spec fn child_path(parent: Seq<u8>, parent_port: u8, interface_number: u8) -> Option<Seq<u8>> {
    match end_offset(parent, 0) {
        Some(end) => Some(
            parent.take(end) + usb_node_bytes(parent_port, interface_number) + parent.subrange(
                end,
                end + DEVICE_PATH_HEADER_SIZE,
            ),
        ),
        None => None,
    }
}

proof fn lemma_end_offset_bounds(path: Seq<u8>, offset: int)
    ensures
        end_offset(path, offset) matches Some(end) ==> 0 <= offset <= end && end + DEVICE_PATH_HEADER_SIZE
            <= path.len() && ends_path(node_at(path, end)),
    decreases path.len() - offset,
{
    if node_fits(path, offset) && !ends_path(node_at(path, offset)) {
        lemma_end_offset_bounds(path, offset + node_at(path, offset).length);
    }
}

/// Returns the device path of an interface behind a port.
pub fn usb_child_path(parent: &[u8], parent_port: u8, interface_number: u8) -> (r: Option<Vec<u8>>)
    ensures
        match r {
            Some(path) => child_path(parent@, parent_port, interface_number) == Some(path@),
            None => child_path(parent@, parent_port, interface_number) is None,
        },
{
    let mut end: usize = 0;
    loop
        invariant_except_break
            end_offset(parent@, 0) == end_offset(parent@, end as int),
        invariant
            end <= parent@.len(),
        ensures
            end_offset(parent@, 0) == Some(end as int),
            end + DEVICE_PATH_HEADER_SIZE <= parent@.len(),
        decreases parent@.len() - end,
    {
        if parent.len() - end < DEVICE_PATH_HEADER_SIZE {
            return None;
        }
        let node = read_node(parent, end);
        if is_end_node(&node) {
            break;
        }
        let length: usize = node_length(&node);
        if length < DEVICE_PATH_HEADER_SIZE || length > parent.len() - end {
            return None;
        }
        end = end + length;
    }
    let mut path: Vec<u8> = slice_to_vec(slice_subrange(parent, 0, end));
    path.push(TYPE_MESSAGING);
    path.push(MSG_USB_DP);
    path.push(6);
    path.push(0);
    path.push(parent_port);
    path.push(interface_number);
    path.push(parent[end]);
    path.push(parent[end + 1]);
    path.push(parent[end + 2]);
    path.push(parent[end + 3]);
    assert(path@ =~= parent@.take(end as int) + usb_node_bytes(parent_port, interface_number)
        + parent@.subrange(end as int, end + DEVICE_PATH_HEADER_SIZE));
    Some(path)
}

proof fn lemma_child_nodes(parent: Seq<u8>, parent_port: u8, interface_number: u8, offset: int)
    requires
        0 <= offset,
        end_offset(parent, 0) is Some,
        end_offset(parent, offset) == end_offset(parent, 0),
        node_at(parent, end_offset(parent, 0)->0).length == DEVICE_PATH_HEADER_SIZE,
    ensures
        ({
            let end = end_offset(parent, 0)->0;
            let child = child_path(parent, parent_port, interface_number)->0;
            &&& path_end(child, offset) == Some(child.len() as int)
            &&& offset <= usb_begin(child, offset) <= end
            &&& node_fits(child, usb_begin(child, offset)) && names_usb(
                node_at(child, usb_begin(child, offset)),
            )
        }),
    decreases parent.len() - offset,
{
    let end = end_offset(parent, 0)->0;
    let child = child_path(parent, parent_port, interface_number)->0;
    lemma_end_offset_bounds(parent, 0);
    lemma_end_offset_bounds(parent, offset);
    assert(child.len() == end + 10);
    if offset < end {
        let length = node_at(parent, offset).length;
        lemma_end_offset_bounds(parent, offset + length);
        assert(child[offset] == parent[offset] && child[offset + 1] == parent[offset + 1] && child[offset + 2]
            == parent[offset + 2] && child[offset + 3] == parent[offset + 3]);
        assert(node_at(child, offset) == node_at(parent, offset));
        lemma_child_nodes(parent, parent_port, interface_number, offset + length);
    } else {
        let node = usb_node_bytes(parent_port, interface_number);
        assert(child[end] == node[0] && child[end + 1] == node[1] && child[end + 2] == node[2] && child[end
            + 3] == node[3]);
        assert(node_at(child, end).length == 6);
        assert(child[end + 6] == parent[end] && child[end + 7] == parent[end + 1] && child[end + 8]
            == parent[end + 2] && child[end + 9] == parent[end + 3]);
        assert(node_at(child, end + 6) == node_at(parent, end));
        assert(path_end(child, end + 6) == Some(child.len() as int));
    }
}

/// The path of an interface is a whole device path, one node longer than that of its
/// hub, and it has a USB part.
pub proof fn child_path_is_whole(parent: Seq<u8>, parent_port: u8, interface_number: u8)
    requires
        end_offset(parent, 0) matches Some(end) && node_at(parent, end).length == DEVICE_PATH_HEADER_SIZE,
    ensures
        child_path(parent, parent_port, interface_number) matches Some(child) && {
            &&& child.len() == end_offset(parent, 0)->0 + DEVICE_PATH_HEADER_SIZE + USB_DEVICE_PATH_SIZE
            &&& path_end(child, 0) == Some(child.len() as int)
            &&& usb_part(child) is Some
        },
{
    let child = child_path(parent, parent_port, interface_number)->0;
    lemma_end_offset_bounds(parent, 0);
    lemma_child_nodes(parent, parent_port, interface_number, 0);
    lemma_usb_end_bounds(child, usb_begin(child, 0));
}

/// A text ends with another one exactly where it is some text followed by it.
pub proof fn a_suffix_is_what_follows_something(text: Seq<u16>, suffix: Seq<u16>)
    ensures
        has_suffix(text, suffix) <==> exists|before: Seq<u16>| text == #[trigger] (before + suffix),
{
    if has_suffix(text, suffix) {
        let before = text.take(text.len() - suffix.len());
        assert(text =~= before + suffix);
    }
    if exists|before: Seq<u16>| text == #[trigger] (before + suffix) {
        let before = choose|before: Seq<u16>| text == #[trigger] (before + suffix);
        assert(text.subrange(text.len() - suffix.len(), text.len() as int) =~= suffix);
    }
}

/// A whole path ends with its end node.
pub proof fn lemma_whole_path_end(path: Seq<u8>, offset: int)
    requires
        path_end(path, offset) is Some,
    ensures
        end_offset(path, offset) matches Some(end) && offset <= end && path_end(path, offset) == Some(
            end + node_at(path, end).length,
        ) && end + node_at(path, end).length <= path.len(),
    decreases path.len() - offset,
{
    if node_fits(path, offset) && !ends_path(node_at(path, offset)) {
        lemma_whole_path_end(path, offset + node_at(path, offset).length);
    }
}

/// A path that starts as another one without its end node does not end before it.
pub proof fn lemma_common_start(path: Seq<u8>, longer: Seq<u8>, offset: int)
    requires
        end_offset(path, offset) matches Some(end) && end <= longer.len() && path.take(end) == longer.take(
            end,
        ),
        end_offset(longer, offset) is Some,
    ensures
        end_offset(path, offset)->0 <= end_offset(longer, offset)->0,
    decreases path.len() - offset,
{
    let end = end_offset(path, offset)->0;
    lemma_end_offset_bounds(path, offset);
    lemma_end_offset_bounds(longer, offset);
    if offset < end {
        let length = node_at(path, offset).length;
        lemma_end_offset_bounds(path, offset + length);
        assert forall|i: int| 0 <= i < end implies path[i] == longer[i] by {
            assert(path.take(end)[i] == longer.take(end)[i]);
        }
        assert(node_at(longer, offset) == node_at(path, offset));
        lemma_common_start(path, longer, offset + length);
    }
}

} // verus!
