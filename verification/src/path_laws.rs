//! Laws of device paths: how paths are made of nodes, and what nodes of each kind
//! select.

use crate::device_path::UsbClassDevicePath;
use crate::usb_bus_defs::{UsbDevice, UsbInterface};
use crate::usb_desc::{word_of, DeviceDescriptor, InterfaceDescriptor};
use crate::usb_utility::{
    all_usb_path, child_path, class_selects, end_offset, ends_path, judges, lists_path, node_at, node_fits, path_end, usb_begin, usb_end,
    usb_part, wanted_after, wanted_serial, with_path, Judgement,
};
use vstd::prelude::*;

verus! {

/// The bytes are one node: its length in bytes stands in its third and fourth byte.
pub open spec fn is_node(node: Seq<u8>) -> bool {
    &&& 4 <= node.len()
    &&& node[2] + 256 * node[3] == node.len()
}

/// A node ends the whole path: type 0x7f, sub-type 0xff.
pub open spec fn is_last(node: Seq<u8>) -> bool {
    node[0] == 0x7f && node[1] == 0xff
}

/// A node names a USB device: type 3, sub-type 5, 15 or 16.
pub open spec fn is_usb(node: Seq<u8>) -> bool {
    node[0] == 3 && (node[1] == 5 || node[1] == 15 || node[1] == 16)
}

/// Nodes one after the other.
pub open spec fn joined(nodes: Seq<Seq<u8>>) -> Seq<u8>
    decreases nodes.len(),
{
    if nodes.len() == 0 {
        Seq::empty()
    } else {
        nodes[0] + joined(nodes.drop_first())
    }
}

/// The node that ends a path.
pub open spec fn last_node() -> Seq<u8> {
    seq![0x7fu8, 0xffu8, 4u8, 0u8]
}

/// All of the bytes are nodes, and none of them ends the path.
pub open spec fn are_inner(nodes: Seq<Seq<u8>>) -> bool {
    forall|i: int| 0 <= i < nodes.len() ==> is_node(#[trigger] nodes[i]) && !is_last(nodes[i])
}

proof fn lemma_first_node(node: Seq<u8>, rest: Seq<u8>)
    requires
        is_node(node),
    ensures
        node_fits(node + rest, 0),
        node_at(node + rest, 0).node_type == node[0],
        node_at(node + rest, 0).sub_type == node[1],
        node_at(node + rest, 0).length == node.len(),
{
    let path = node + rest;
    assert(path[0] == node[0] && path[1] == node[1] && path[2] == node[2] && path[3] == node[3]);
}

proof fn lemma_shifted(node: Seq<u8>, rest: Seq<u8>, offset: int)
    requires
        0 <= offset,
        node.len() > 0,
    ensures
        ({
            let path = node + rest;
            let n = node.len() as int;
            &&& path_end(path, n + offset) == (match path_end(rest, offset) {
                Some(end) => Some(n + end),
                None => None,
            })
            &&& usb_begin(path, n + offset) == n + usb_begin(rest, offset)
            &&& usb_end(path, n + offset) == n + usb_end(rest, offset)
            &&& end_offset(path, n + offset) == (match end_offset(rest, offset) {
                Some(end) => Some(n + end),
                None => None,
            })
        }),
    decreases rest.len() - offset,
{
    let path = node + rest;
    let n = node.len() as int;
    if offset + 4 <= rest.len() {
        assert(path[n + offset] == rest[offset] && path[n + offset + 1] == rest[offset + 1] && path[n + offset
            + 2] == rest[offset + 2] && path[n + offset + 3] == rest[offset + 3]);
        assert(node_at(path, n + offset) == node_at(rest, offset));
        if node_fits(rest, offset) {
            lemma_shifted(node, rest, offset + node_at(rest, offset).length);
        }
    }
}

/// A path ends behind its first node that ends a path: a node in front of a path moves
/// its end by the length of the node.
pub proof fn a_node_in_front_moves_the_end(node: Seq<u8>, rest: Seq<u8>)
    requires
        is_node(node),
    ensures
        is_last(node) ==> path_end(node + rest, 0) == Some(node.len() as int),
        !is_last(node) ==> path_end(node + rest, 0) == (match path_end(rest, 0) {
            Some(end) => Some(node.len() + end),
            None => None,
        }),
{
    lemma_first_node(node, rest);
    lemma_shifted(node, rest, 0);
}

/// Bytes that do not start with a whole node are no path.
pub proof fn a_path_starts_with_a_whole_node(path: Seq<u8>)
    requires
        path.len() < 4 || path[2] + 256 * path[3] < 4 || path[2] + 256 * path[3] > path.len(),
    ensures
        path_end(path, 0) is None,
        usb_part(path) is None,
{
}

proof fn lemma_end_stays(path: Seq<u8>, rest: Seq<u8>, offset: int)
    requires
        path_end(path, offset) is Some,
    ensures
        path_end(path + rest, offset) == path_end(path, offset),
        path_end(path, offset)->0 <= path.len(),
    decreases path.len() - offset,
{
    let longer = path + rest;
    assert(longer[offset] == path[offset] && longer[offset + 1] == path[offset + 1] && longer[offset + 2]
        == path[offset + 2] && longer[offset + 3] == path[offset + 3]);
    assert(node_at(longer, offset) == node_at(path, offset));
    if !ends_path(node_at(path, offset)) {
        lemma_end_stays(path, rest, offset + node_at(path, offset).length);
    }
}

/// What lies behind the end of a path does not belong to it: a list holds the path exactly
/// where it holds its own bytes.
pub proof fn bytes_behind_a_path_do_not_matter(paths: Seq<Seq<u8>>, path: Seq<u8>, rest: Seq<u8>)
    requires
        path_end(path, 0) == Some(path.len() as int),
    ensures
        path_end(path + rest, 0) == Some(path.len() as int),
        lists_path(paths, path + rest) <==> paths.contains(path),
{
    lemma_end_stays(path, rest, 0);
    assert((path + rest).take(path.len() as int) =~= path);
}

/// A path that was added to a list is held by it, and adding it again changes nothing.
pub proof fn an_added_path_is_listed(paths: Seq<Seq<u8>>, path: Seq<u8>)
    requires
        path_end(path, 0) is Some,
    ensures
        ({
            let own = path.take(path_end(path, 0)->0);
            let after = with_path(paths, own);
            &&& lists_path(after, path)
            &&& with_path(after, own) == after
            &&& forall|i: int| 0 <= i < paths.len() ==> #[trigger] after[i] == paths[i]
            &&& lists_path(paths, path) ==> after == paths
            &&& !lists_path(paths, path) ==> after.len() == paths.len() + 1
        }),
{
    let own = path.take(path_end(path, 0)->0);
    if !paths.contains(own) {
        assert(paths.push(own)[paths.len() as int] == own);
    }
}

proof fn lemma_usb_run(nodes: Seq<Seq<u8>>, rest: Seq<u8>)
    requires
        are_inner(nodes),
        forall|i: int| 0 <= i < nodes.len() ==> is_usb(#[trigger] nodes[i]),
        is_node(rest.take(rest[2] + 256 * rest[3])),
        rest[2] + 256 * rest[3] <= rest.len(),
        !is_usb(rest),
    ensures
        usb_end(joined(nodes) + rest, 0) == joined(nodes).len(),
        path_end(rest, 0) is Some ==> path_end(joined(nodes) + rest, 0) is Some,
    decreases nodes.len(),
{
    let path = joined(nodes) + rest;
    if nodes.len() == 0 {
        assert(path =~= rest);
        assert(rest.take(rest[2] + 256 * rest[3])[0] == rest[0]);
    } else {
        let node = nodes[0];
        let tail = nodes.drop_first();
        assert forall|i: int| 0 <= i < tail.len() implies is_node(#[trigger] tail[i]) && !is_last(tail[i])
            && is_usb(tail[i]) by {
            assert(tail[i] == nodes[i + 1]);
        }
        lemma_usb_run(tail, rest);
        assert(path =~= node + (joined(tail) + rest));
        lemma_first_node(node, joined(tail) + rest);
        lemma_shifted(node, joined(tail) + rest, 0);
    }
}

/// The USB part of a path is its first run of nodes that name USB devices, with a node
/// that ends a path behind it: whatever comes before the run or behind it does not
/// matter.
pub proof fn the_usb_part_is_the_first_run(before: Seq<Seq<u8>>, run: Seq<Seq<u8>>, rest: Seq<u8>)
    requires
        are_inner(before),
        forall|i: int| 0 <= i < before.len() ==> !is_usb(#[trigger] before[i]),
        are_inner(run),
        forall|i: int| 0 <= i < run.len() ==> is_usb(#[trigger] run[i]),
        rest.len() >= 4,
        !is_usb(rest),
        path_end(rest, 0) is Some,
    ensures
        usb_part(joined(before) + joined(run) + rest) == (if run.len() > 0 {
            Some(joined(run) + last_node())
        } else {
            usb_part(rest)
        }),
    decreases before.len(),
{
    let path = joined(before) + joined(run) + rest;
    if before.len() > 0 {
        let node = before[0];
        let tail = before.drop_first();
        assert forall|i: int| 0 <= i < tail.len() implies is_node(#[trigger] tail[i]) && !is_last(tail[i])
            && !is_usb(tail[i]) by {
            assert(tail[i] == before[i + 1]);
        }
        the_usb_part_is_the_first_run(tail, run, rest);
        let inner = joined(tail) + joined(run) + rest;
        assert(path =~= node + inner);
        lemma_first_node(node, inner);
        lemma_shifted(node, inner, 0);
        lemma_whole(tail + run, rest);
        lemma_joined(tail, run);
        assert(inner =~= joined(tail + run) + rest);
        let begin = usb_begin(inner, 0);
        lemma_runs_forward(inner, 0);
        lemma_shifted(node, inner, begin);
        let end = usb_end(inner, begin);
        lemma_runs_forward(inner, begin);
        assert(path.subrange(node.len() + begin, node.len() + end) =~= inner.subrange(begin, end));
    } else {
        assert(path =~= joined(run) + rest);
        let first = rest.take(rest[2] + 256 * rest[3]);
        assert(first[0] == rest[0] && first[1] == rest[1] && first[2] == rest[2] && first[3] == rest[3]);
        lemma_usb_run(run, rest);
        if run.len() > 0 {
            lemma_first_node(run[0], joined(run.drop_first()) + rest);
            assert(path =~= run[0] + (joined(run.drop_first()) + rest));
            assert(usb_begin(path, 0) == 0);
            assert(path.subrange(0, joined(run).len() as int) =~= joined(run));
        } else {
            assert(path =~= rest);
        }
    }
}

/// Joining two lists of nodes joins their bytes.
pub proof fn lemma_joined(a: Seq<Seq<u8>>, b: Seq<Seq<u8>>)
    ensures
        joined(a + b) == joined(a) + joined(b),
    decreases a.len(),
{
    if a.len() == 0 {
        assert(a + b =~= b);
        assert(joined(a) + joined(b) =~= joined(b));
    } else {
        lemma_joined(a.drop_first(), b);
        assert((a + b).drop_first() =~= a.drop_first() + b);
        assert(joined(a + b) =~= joined(a) + joined(b));
    }
}

proof fn lemma_runs_forward(path: Seq<u8>, offset: int)
    requires
        0 <= offset <= path.len(),
    ensures
        offset <= usb_begin(path, offset) <= path.len(),
        offset <= usb_end(path, offset) <= path.len(),
    decreases path.len() - offset,
{
    if node_fits(path, offset) {
        lemma_runs_forward(path, offset + node_at(path, offset).length);
    }
}

/// Nodes in front of a path move its end by their length.
pub proof fn lemma_whole(nodes: Seq<Seq<u8>>, rest: Seq<u8>)
    requires
        are_inner(nodes),
    ensures
        path_end(joined(nodes) + rest, 0) == (match path_end(rest, 0) {
            Some(end) => Some(joined(nodes).len() + end),
            None => None,
        }),
        end_offset(joined(nodes) + rest, 0) == (match end_offset(rest, 0) {
            Some(end) => Some(joined(nodes).len() + end),
            None => None,
        }),
    decreases nodes.len(),
{
    let path = joined(nodes) + rest;
    if nodes.len() == 0 {
        assert(path =~= rest);
    } else {
        let node = nodes[0];
        let tail = nodes.drop_first();
        assert forall|i: int| 0 <= i < tail.len() implies is_node(#[trigger] tail[i]) && !is_last(
            tail[i],
        ) by {
            assert(tail[i] == nodes[i + 1]);
        }
        lemma_whole(tail, rest);
        assert(path =~= node + (joined(tail) + rest));
        lemma_first_node(node, joined(tail) + rest);
        lemma_shifted(node, joined(tail) + rest, 0);
    }
}

/// The path of an interface is that of its hub with one USB node before the end: type
/// 3, sub-type 5, six bytes long, with the port and the number of the interface.
pub proof fn a_child_path_has_one_node_more(nodes: Seq<Seq<u8>>, port: u8, number: u8)
    requires
        are_inner(nodes),
    ensures
        child_path(joined(nodes) + last_node(), port, number) == Some(
            joined(nodes.push(seq![3u8, 5u8, 6u8, 0u8, port, number])) + last_node(),
        ),
{
    let parent = joined(nodes) + last_node();
    let node = seq![3u8, 5u8, 6u8, 0u8, port, number];
    let end = joined(nodes).len() as int;
    lemma_whole(nodes, last_node());
    assert(last_node()[0] == 0x7f && last_node()[1] == 0xff);
    assert(end_offset(last_node(), 0) == Some(0int));
    assert(nodes.push(node) =~= nodes + seq![node]);
    lemma_joined(nodes, seq![node]);
    assert(seq![node].drop_first() =~= Seq::empty());
    reveal_with_fuel(joined, 2);
    assert(joined(seq![node]) =~= node);
    assert(parent.take(end) =~= joined(nodes));
    assert(parent.subrange(end, end + 4) =~= last_node());
    assert(child_path(parent, port, number)->0 =~= joined(nodes.push(node)) + last_node());
}

/// Two interfaces behind the same hub have different paths, unless they are at the same
/// port and have the same number.
pub proof fn sibling_paths_differ(nodes: Seq<Seq<u8>>, port: u8, number: u8, other_port: u8, other_number: u8)
    requires
        are_inner(nodes),
        port != other_port || number != other_number,
    ensures
        child_path(joined(nodes) + last_node(), port, number) != child_path(
            joined(nodes) + last_node(),
            other_port,
            other_number,
        ),
{
    a_child_path_has_one_node_more(nodes, port, number);
    a_child_path_has_one_node_more(nodes, other_port, other_number);
    let a = seq![3u8, 5u8, 6u8, 0u8, port, number];
    let b = seq![3u8, 5u8, 6u8, 0u8, other_port, other_number];
    let n = joined(nodes).len() as int;
    lemma_joined(nodes, seq![a]);
    lemma_joined(nodes, seq![b]);
    assert(nodes.push(a) =~= nodes + seq![a]);
    assert(nodes.push(b) =~= nodes + seq![b]);
    assert(seq![a].drop_first() =~= Seq::empty());
    assert(seq![b].drop_first() =~= Seq::empty());
    reveal_with_fuel(joined, 2);
    assert(joined(seq![a]) =~= a);
    assert(joined(seq![b]) =~= b);
    let first = joined(nodes.push(a)) + last_node();
    let second = joined(nodes.push(b)) + last_node();
    assert(first[n + 4] == port && second[n + 4] == other_port);
    assert(first[n + 5] == number && second[n + 5] == other_number);
}

/// The device is described as `desc`, and the setting of the interface that is in use
/// as `setting`.
pub open spec fn are_described(
    interface: UsbInterface,
    setting: InterfaceDescriptor,
    device: UsbDevice,
    desc: DeviceDescriptor,
) -> bool {
    &&& interface.if_desc matches Some(settings)
    &&& settings.active_index < settings.settings@.len()
    &&& settings.settings@[settings.active_index as int].descriptor == setting
    &&& device.dev_desc matches Some(d)
    &&& d.descriptor == desc
}

/// A setting is that of a hub: class 9, subclass 0.
pub open spec fn is_hub_setting(setting: InterfaceDescriptor) -> bool {
    setting.interface_class == 9 && setting.interface_sub_class == 0
}

/// A class node whose vendor, product, class, subclass and protocol are those of the
/// device and, where the device leaves its class to its interfaces, of the setting in
/// use selects the interface.
pub proof fn a_class_node_selects_what_it_describes(
    path: UsbClassDevicePath,
    interface: UsbInterface,
    setting: InterfaceDescriptor,
    device: UsbDevice,
    desc: DeviceDescriptor,
)
    requires
        are_described(interface, setting, device, desc),
        path.header.node_type == 3,
        path.header.sub_type == 15,
        path.vendor_id == desc.id_vendor,
        path.product_id == desc.id_product,
        desc.device_class == 0 ==> path.device_class == setting.interface_class && path.device_sub_class
            == setting.interface_sub_class && path.device_protocol == setting.interface_protocol,
        desc.device_class != 0 ==> path.device_class == desc.device_class && path.device_sub_class
            == desc.device_sub_class && path.device_protocol == desc.device_protocol,
    ensures
        class_selects(path, interface, device),
{
}

/// A class node that names a vendor, a product, a class, a subclass or a protocol which
/// is neither a wildcard nor that of the device or of its interface does not select an
/// interface that is no hub.
pub proof fn a_class_node_selects_nothing_else(
    path: UsbClassDevicePath,
    interface: UsbInterface,
    setting: InterfaceDescriptor,
    device: UsbDevice,
    desc: DeviceDescriptor,
)
    requires
        are_described(interface, setting, device, desc),
        !is_hub_setting(setting),
        ({
            let class = if desc.device_class == 0 {
                setting.interface_class
            } else {
                desc.device_class
            };
            let sub_class = if desc.device_class == 0 {
                setting.interface_sub_class
            } else {
                desc.device_sub_class
            };
            let protocol = if desc.device_class == 0 {
                setting.interface_protocol
            } else {
                desc.device_protocol
            };
            ||| path.header.node_type != 3
            ||| path.header.sub_type != 15
            ||| path.vendor_id != 0xffff && path.vendor_id != desc.id_vendor
            ||| path.product_id != 0xffff && path.product_id != desc.id_product
            ||| path.device_class != 0xff && path.device_class != class
            ||| path.device_sub_class != 0xff && path.device_sub_class != sub_class
            ||| path.device_protocol != 0xff && path.device_protocol != protocol
        }),
    ensures
        !class_selects(path, interface, device),
{
}

/// A wildcard in place of a value selects at least as much, and the node with nothing
/// but wildcards selects every interface that is described. A hub is selected by every
/// class node.
pub proof fn wildcards_select_more(
    path: UsbClassDevicePath,
    interface: UsbInterface,
    setting: InterfaceDescriptor,
    device: UsbDevice,
    desc: DeviceDescriptor,
)
    requires
        are_described(interface, setting, device, desc),
        path.header.node_type == 3,
        path.header.sub_type == 15,
    ensures
        class_selects(path, interface, device) ==> class_selects(
            UsbClassDevicePath { vendor_id: 0xffff, ..path },
            interface,
            device,
        ) && class_selects(UsbClassDevicePath { product_id: 0xffff, ..path }, interface, device)
            && class_selects(UsbClassDevicePath { device_class: 0xff, ..path }, interface, device)
            && class_selects(UsbClassDevicePath { device_sub_class: 0xff, ..path }, interface, device)
            && class_selects(UsbClassDevicePath { device_protocol: 0xff, ..path }, interface, device),
        class_selects(
            UsbClassDevicePath {
                header: path.header,
                vendor_id: 0xffff,
                product_id: 0xffff,
                device_class: 0xff,
                device_sub_class: 0xff,
                device_protocol: 0xff,
            },
            interface,
            device,
        ),
        is_hub_setting(setting) ==> class_selects(path, interface, device),
{
}

/// A class node lies in a path as eleven bytes: vendor and product as little-endian
/// words, then class, subclass and protocol. What it selects does not depend on what
/// stands behind it, nor on the path of the interface.
pub proof fn a_class_node_is_read_from_its_bytes(
    path: UsbClassDevicePath,
    rest: Seq<u8>,
    own_path: Seq<u8>,
    interface: UsbInterface,
    device: UsbDevice,
)
    requires
        path.header.node_type == 3,
        path.header.sub_type == 15,
        path.header.length == 11,
    ensures
        judges(
            seq![
                3u8,
                15u8,
                11u8,
                0u8,
                (path.vendor_id % 256) as u8,
                (path.vendor_id / 256) as u8,
                (path.product_id % 256) as u8,
                (path.product_id / 256) as u8,
                path.device_class,
                path.device_sub_class,
                path.device_protocol,
            ] + rest,
            own_path,
            interface,
            device,
        ) == (if class_selects(path, interface, device) {
            Judgement::Yes
        } else {
            Judgement::No
        }),
{
    let bytes = seq![
        3u8,
        15u8,
        11u8,
        0u8,
        (path.vendor_id % 256) as u8,
        (path.vendor_id / 256) as u8,
        (path.product_id % 256) as u8,
        (path.product_id / 256) as u8,
        path.device_class,
        path.device_sub_class,
        path.device_protocol,
    ];
    let wanted = bytes + rest;
    assert(forall|i: int| 0 <= i < 11 ==> wanted[i] == bytes[i]);
    assert(wanted[0] == 3 && wanted[1] == 15 && wanted[2] == 11 && wanted[3] == 0);
    assert(wanted[4] == (path.vendor_id % 256) as u8 && wanted[5] == (path.vendor_id / 256) as u8);
    assert(wanted[6] == (path.product_id % 256) as u8 && wanted[7] == (path.product_id / 256) as u8);
    assert(wanted[8] == path.device_class && wanted[9] == path.device_sub_class && wanted[10]
        == path.device_protocol);
}

/// The words of a text, low byte first.
pub open spec fn text_bytes(text: Seq<u16>) -> Seq<u8>
    decreases text.len(),
{
    if text.len() == 0 {
        Seq::empty()
    } else {
        text_bytes(text.drop_last()) + seq![(text.last() % 256) as u8, (text.last() / 256) as u8]
    }
}

proof fn lemma_text_bytes(text: Seq<u16>, i: int)
    requires
        0 <= i < text.len(),
    ensures
        text_bytes(text).len() == 2 * text.len(),
        text_bytes(text)[2 * i] == text[i] % 256,
        text_bytes(text)[2 * i + 1] == text[i] / 256,
    decreases text.len(),
{
    let front = text.drop_last();
    if front.len() > 0 {
        lemma_text_bytes(front, if i < front.len() {
            i
        } else {
            0
        });
    }
    let tail = seq![(text.last() % 256) as u8, (text.last() / 256) as u8];
    assert(text_bytes(text) == text_bytes(front) + tail);
    assert(text_bytes(front).len() == 2 * front.len());
    if i < front.len() {
        assert(text_bytes(text)[2 * i] == text_bytes(front)[2 * i]);
        assert(text_bytes(text)[2 * i + 1] == text_bytes(front)[2 * i + 1]);
    } else {
        assert(text_bytes(text)[2 * i] == tail[0]);
        assert(text_bytes(text)[2 * i + 1] == tail[1]);
    }
}

/// The bytes of a node that asks for one device by the number of the interface, vendor,
/// product and serial number.
pub open spec fn serial_node(number: u16, vendor: u16, product: u16, serial: Seq<u16>) -> Seq<u8> {
    seq![
        3u8,
        16u8,
        ((10 + 2 * serial.len()) % 256) as u8,
        ((10 + 2 * serial.len()) / 256) as u8,
        (number % 256) as u8,
        (number / 256) as u8,
        (vendor % 256) as u8,
        (vendor / 256) as u8,
        (product % 256) as u8,
        (product / 256) as u8,
    ] + text_bytes(serial)
}

proof fn lemma_serial_node(number: u16, vendor: u16, product: u16, serial: Seq<u16>, rest: Seq<u8>)
    requires
        0 < serial.len(),
        10 + 2 * serial.len() < 65536,
    ensures
        ({
            let wanted = serial_node(number, vendor, product, serial) + rest;
            &&& wanted.len() >= 10 + 2 * serial.len()
            &&& wanted[0] == 3 && wanted[1] == 16
            &&& wanted[2] + 256 * wanted[3] == 10 + 2 * serial.len()
            &&& wanted[4] + 256 * wanted[5] == number
            &&& wanted[6] + 256 * wanted[7] == vendor
            &&& wanted[8] + 256 * wanted[9] == product
            &&& forall|i: int|
                0 <= i < serial.len() ==> wanted[10 + 2 * i] + 256 * wanted[11 + 2 * i]
                    == #[trigger] serial[i]
        }),
{
    let wanted = serial_node(number, vendor, product, serial) + rest;
    let text = text_bytes(serial);
    lemma_text_bytes(serial, 0);
    let head = serial_node(number, vendor, product, serial);
    assert(head.len() == 10 + 2 * serial.len());
    assert(forall|i: int| 0 <= i < head.len() ==> wanted[i] == head[i]);
    assert(head[0] == 3 && head[1] == 16);
    assert(head[2] == ((10 + 2 * serial.len()) % 256) as u8);
    assert(head[3] == ((10 + 2 * serial.len()) / 256) as u8);
    assert(head[4] == (number % 256) as u8 && head[5] == (number / 256) as u8);
    assert(head[6] == (vendor % 256) as u8 && head[7] == (vendor / 256) as u8);
    assert(head[8] == (product % 256) as u8 && head[9] == (product / 256) as u8);
    assert forall|i: int| 0 <= i < serial.len() implies wanted[10 + 2 * i] + 256 * wanted[11 + 2 * i]
        == #[trigger] serial[i] by {
        lemma_text_bytes(serial, i);
        assert(head[10 + 2 * i] == text[2 * i]);
        assert(head[11 + 2 * i] == text[2 * i + 1]);
    }
}

/// A node that asks for a device by its serial number leaves the decision to the serial
/// number exactly where number, vendor and product are those of the interface and its
/// device, and the device has a serial number; otherwise it selects nothing but hubs,
/// which it always selects.
pub proof fn a_serial_number_decides_last(
    number: u16,
    vendor: u16,
    product: u16,
    serial: Seq<u16>,
    rest: Seq<u8>,
    own_path: Seq<u8>,
    interface: UsbInterface,
    setting: InterfaceDescriptor,
    device: UsbDevice,
    desc: DeviceDescriptor,
)
    requires
        are_described(interface, setting, device, desc),
        0 < serial.len(),
        10 + 2 * serial.len() < 65536,
    ensures
        ({
            let judgement = judges(
                serial_node(number, vendor, product, serial) + rest,
                own_path,
                interface,
                device,
            );
            &&& is_hub_setting(setting) <==> judgement == Judgement::Yes
            &&& judgement == Judgement::AskSerial <==> {
                &&& !is_hub_setting(setting)
                &&& number == setting.interface_number
                &&& vendor == desc.id_vendor
                &&& product == desc.id_product
                &&& desc.str_serial_number != 0
            }
        }),
{
    lemma_serial_node(number, vendor, product, serial, rest);
}

/// The serial number that is asked for is read back from the node, without a zero at
/// its end.
pub proof fn a_wanted_serial_number_is_read_back(
    number: u16,
    vendor: u16,
    product: u16,
    serial: Seq<u16>,
    rest: Seq<u8>,
)
    requires
        0 < serial.len(),
        10 + 2 * serial.len() < 65536,
    ensures
        wanted_serial(serial_node(number, vendor, product, serial) + rest) == (if serial.last() == 0 {
            serial.drop_last()
        } else {
            serial
        }),
{
    let wanted = serial_node(number, vendor, product, serial) + rest;
    lemma_serial_node(number, vendor, product, serial, rest);
    let read = Seq::new(serial.len(), |i: int| word_of(wanted, 10 + 2 * i));
    assert forall|i: int| 0 <= i < serial.len() implies #[trigger] read[i] == serial[i] by {}
    assert(read =~= serial);
}

/// A class node that does not say that it is eleven bytes long, or is not there as a whole,
/// selects nothing. A node with a serial number that is shorter than its fixed ten bytes, or
/// longer than what is there, selects nothing either; and one without a whole serial number
/// asks for none.
pub proof fn a_broken_node_selects_nothing(
    wanted: Seq<u8>,
    own_path: Seq<u8>,
    interface: UsbInterface,
    device: UsbDevice,
)
    requires
        wanted.len() >= 4,
        wanted[0] == 3,
    ensures
        ({
            let length = wanted[2] + 256 * wanted[3];
            let judgement = judges(wanted, own_path, interface, device);
            &&& wanted[1] == 15 && (length != 11 || wanted.len() < 11) ==> judgement == Judgement::No
            &&& wanted[1] == 16 && (length < 10 || length > wanted.len()) ==> judgement == Judgement::No
            &&& wanted[1] == 16 && (length == 10 || length % 2 == 1) ==> judgement != Judgement::AskSerial
        }),
{
}

/// Nothing selects an interface that is not described, or whose device is not.
pub proof fn what_is_not_described_is_not_selected(
    wanted: Seq<u8>,
    own_path: Seq<u8>,
    interface: UsbInterface,
    device: UsbDevice,
)
    requires
        interface.if_desc is None || device.dev_desc is None,
        wanted.len() >= 4 && wanted[1] != 5,
    ensures
        judges(wanted, own_path, interface, device) == Judgement::No,
{
}

/// A node that names a port, type 3 and sub-type 5, selects exactly the interface whose
/// own USB path is the wanted one. A path that starts with any other kind of node
/// selects nothing.
pub proof fn a_port_path_selects_itself(
    wanted: Seq<u8>,
    own_path: Seq<u8>,
    interface: UsbInterface,
    device: UsbDevice,
)
    requires
        wanted.len() >= 4,
    ensures
        wanted[0] == 3 && wanted[1] == 5 ==> judges(wanted, own_path, interface, device) == (if wanted
            == own_path {
            Judgement::Yes
        } else {
            Judgement::No
        }),
        !is_usb(wanted) ==> judges(wanted, own_path, interface, device) == Judgement::No,
{
}

/// Asking for everything is asking for one class node with nothing but wildcards, and
/// forgets what was wanted before; asking for a path that is at its end changes nothing;
/// a path that does not start with a USB node is refused.
pub proof fn what_is_asked_for_is_wanted(paths: Seq<Seq<u8>>, path: Seq<u8>)
    ensures
        wanted_after(paths, None) == Some(
            seq![
                seq![3u8, 15u8, 11u8, 0u8, 0xffu8, 0xffu8, 0xffu8, 0xffu8, 0xffu8, 0xffu8, 0xffu8]
                    + last_node(),
            ],
        ),
        path.len() >= 4 && is_last(path) ==> wanted_after(paths, Some(path)) == Some(paths),
        path.len() >= 4 && !is_last(path) && !is_usb(path) ==> wanted_after(paths, Some(path)) is None,
        path.len() < 4 ==> wanted_after(paths, Some(path)) is None,
        path.len() >= 4 && is_usb(path) ==> match usb_part(path) {
            None => wanted_after(paths, Some(path)) is None,
            Some(part) => wanted_after(paths, Some(path)) == Some(
                if paths.contains(part) {
                    paths
                } else {
                    paths + seq![part]
                },
            ),
        },
{
    let all = seq![3u8, 15u8, 11u8, 0u8, 0xffu8, 0xffu8, 0xffu8, 0xffu8, 0xffu8, 0xffu8, 0xffu8]
        + last_node();
    assert(all_usb_path() =~= all);
    if path.len() >= 4 && is_usb(path) {
        if let Some(part) = usb_part(path) {
            assert(paths.push(part) =~= paths + seq![part]);
        }
    }
}

} // verus!
