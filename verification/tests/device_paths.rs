use usb_bus::device_path::{EfiDevicePathProtocol, UsbClassDevicePath};
use usb_bus::driver::{
    collect_device_path, collect_for_running_bus, new_usb_bus, PathNode, Remaining,
};
use usb_bus::status::Status;
use usb_bus::usb_bus_defs::{UsbBus, UsbDevicePathList};
use usb_bus::usb_utility::{
    add_usb_dp_to_list, device_path_node_from_bytes, device_path_temp_size, ends_with,
    get_usb_dp_from_full_dp, is_all_usb_class_device_path, is_end_node, is_usb_node, node_length,
    read_wanted_serial, search_usb_dp_in_list, usb_bus_add_wanted_usb_io_dp, usb_bus_free_usb_dp_list,
    usb_child_path, usb_close_host_proto_by_child, usb_free_device_path, usb_open_host_proto_by_child,
    wwid_serial_length,
};
use usb_bus::task::Action;

const END: [u8; 4] = [0x7f, 0xff, 0x04, 0x00];
const PCI: [u8; 6] = [0x01, 0x01, 0x06, 0x00, 0x00, 0x14];
const USB_PORT_TWO: [u8; 6] = [0x03, 0x05, 0x06, 0x00, 0x02, 0x00];
const USB_PORT_FOUR: [u8; 6] = [0x03, 0x05, 0x06, 0x00, 0x04, 0x01];

fn path(nodes: &[&[u8]]) -> Vec<u8> {
    let mut bytes = Vec::new();
    for node in nodes {
        bytes.extend_from_slice(node);
    }
    bytes
}

fn bus() -> UsbBus {
    new_usb_bus(7, 9, path(&[&PCI, &END]), 2)
}

fn wanted(bus: &UsbBus) -> Vec<Vec<u8>> {
    bus.wanted_usb_io_dp_list.items.iter().map(|item| item.device_path.clone()).collect()
}

#[test]
fn recognizes_all_usb_class_device_path() {
    let path = [
        0x03, 0x0f, 0x0b, 0x00, 0xff, 0xff, 0xff, 0xff, 0xff, 0xff, 0xff, 0x7f, 0xff, 0x04, 0x00,
    ];

    assert!(is_all_usb_class_device_path(&path));
}

#[test]
fn rejects_noncanonical_all_usb_class_device_path() {
    let path = [
        0x03, 0x0f, 0x0b, 0x00, 0xff, 0xff, 0xff, 0xff, 0xff, 0xff, 0xff, 0x7f, 0xff, 0x05, 0x00,
    ];

    assert!(!is_all_usb_class_device_path(&path));
}

#[test]
fn validates_wwid_serial_length() {
    assert_eq!(wwid_serial_length(12), Some(1));
    assert_eq!(wwid_serial_length(10), None);
    assert_eq!(wwid_serial_length(11), None);
    assert_eq!(wwid_serial_length(9), None);
}

#[test]
fn tells_nodes_apart() {
    let end = device_path_node_from_bytes(&END).unwrap();
    assert!(is_end_node(&end));
    assert!(!is_usb_node(&end));
    assert_eq!(node_length(&end), 4);
    let usb = device_path_node_from_bytes(&USB_PORT_TWO).unwrap();
    assert!(is_usb_node(&usb));
    assert!(!is_end_node(&usb));
    let instance_end = EfiDevicePathProtocol { node_type: 0x7f, sub_type: 0x01, length: 4 };
    assert!(!is_end_node(&instance_end));
    let pci = device_path_node_from_bytes(&PCI).unwrap();
    assert!(!is_usb_node(&pci));
    assert!(device_path_node_from_bytes(&[0x7f, 0xff, 0x04]).is_none());
    for sub_type in [0x05, 0x0f, 0x10] {
        assert!(is_usb_node(&EfiDevicePathProtocol { node_type: 3, sub_type, length: 6 }));
    }
    assert!(!is_usb_node(&EfiDevicePathProtocol { node_type: 3, sub_type: 0x06, length: 6 }));
}

#[test]
fn measures_whole_paths_only() {
    assert_eq!(device_path_temp_size(&path(&[&PCI, &USB_PORT_TWO, &END])), Some(16));
    assert_eq!(device_path_temp_size(&path(&[&PCI, &END, &[1, 2, 3]])), Some(10));
    assert_eq!(device_path_temp_size(&path(&[&PCI, &USB_PORT_TWO])), None);
    assert_eq!(device_path_temp_size(&[0x01, 0x01, 0x03, 0x00, 0x7f, 0xff, 0x04, 0x00]), None);
    assert_eq!(device_path_temp_size(&[]), None);
}

#[test]
fn frees_whole_paths_only() {
    let mut good = path(&[&PCI, &END]);
    assert_eq!(usb_free_device_path(&mut good), Ok(()));
    assert!(good.is_empty());
    let mut bad = path(&[&PCI]);
    assert_eq!(usb_free_device_path(&mut bad), Err(Status::InvalidParameter));
    assert_eq!(bad, path(&[&PCI]));
}

#[test]
fn the_usb_part_is_taken_out_of_a_path() {
    let full = path(&[&PCI, &USB_PORT_TWO, &USB_PORT_FOUR, &PCI, &USB_PORT_TWO, &END]);
    let part = path(&[&USB_PORT_TWO, &USB_PORT_FOUR, &END]);
    assert_eq!(get_usb_dp_from_full_dp(&full), Some(part.clone()));
    assert_eq!(get_usb_dp_from_full_dp(&part), Some(part.clone()));
    assert_eq!(get_usb_dp_from_full_dp(&path(&[&PCI, &END])), None);
    assert_eq!(get_usb_dp_from_full_dp(&path(&[&USB_PORT_TWO])), None);
}

#[test]
fn a_child_path_has_a_node_before_the_end() {
    let child = usb_child_path(&path(&[&PCI, &END]), 2, 0).unwrap();
    assert_eq!(child, path(&[&PCI, &USB_PORT_TWO, &END]));
    assert_eq!(device_path_temp_size(&child), Some(16));
    assert_eq!(get_usb_dp_from_full_dp(&child), Some(path(&[&USB_PORT_TWO, &END])));
    assert_eq!(usb_child_path(&path(&[&PCI]), 2, 0), None);
}

#[test]
fn a_list_holds_each_path_once() {
    let mut list = UsbDevicePathList::new();
    let first = path(&[&USB_PORT_TWO, &END]);
    assert!(!search_usb_dp_in_list(&first, Some(&list)));
    assert_eq!(add_usb_dp_to_list(&first, Some(&mut list)), Ok(()));
    assert_eq!(add_usb_dp_to_list(&first, Some(&mut list)), Ok(()));
    assert_eq!(list.items.len(), 1);
    assert!(search_usb_dp_in_list(&first, Some(&list)));
    assert!(!search_usb_dp_in_list(&path(&[&USB_PORT_FOUR, &END]), Some(&list)));
    assert!(!search_usb_dp_in_list(&USB_PORT_TWO, Some(&list)));
    assert!(!search_usb_dp_in_list(&first, None));
    assert_eq!(add_usb_dp_to_list(&USB_PORT_TWO, Some(&mut list)), Err(Status::InvalidParameter));
    assert_eq!(add_usb_dp_to_list(&first, None), Err(Status::InvalidParameter));
    assert_eq!(usb_bus_free_usb_dp_list(Some(&mut list)), Ok(()));
    assert!(list.items.is_empty());
    assert_eq!(usb_bus_free_usb_dp_list(None), Err(Status::InvalidParameter));
}

#[test]
fn wanted_paths_are_remembered() {
    let mut bus = bus();
    let first = path(&[&USB_PORT_TWO, &END]);
    let second = path(&[&USB_PORT_FOUR, &END]);
    assert_eq!(usb_bus_add_wanted_usb_io_dp(&mut bus, Some(&first)), Ok(()));
    assert_eq!(usb_bus_add_wanted_usb_io_dp(&mut bus, Some(&second)), Ok(()));
    assert_eq!(usb_bus_add_wanted_usb_io_dp(&mut bus, Some(&first)), Ok(()));
    assert_eq!(wanted(&bus), vec![first.clone(), second.clone()]);
    assert_eq!(usb_bus_add_wanted_usb_io_dp(&mut bus, Some(&END)), Ok(()));
    assert_eq!(wanted(&bus), vec![first, second]);
}

#[test]
fn no_path_stands_for_all_devices() {
    let mut bus = bus();
    let first = path(&[&USB_PORT_TWO, &END]);
    assert_eq!(usb_bus_add_wanted_usb_io_dp(&mut bus, Some(&first)), Ok(()));
    assert_eq!(usb_bus_add_wanted_usb_io_dp(&mut bus, None), Ok(()));
    assert_eq!(bus.wanted_usb_io_dp_list.items.len(), 1);
    assert!(is_all_usb_class_device_path(&bus.wanted_usb_io_dp_list.items[0].device_path));
}

#[test]
fn paths_to_other_devices_are_refused() {
    let mut bus = bus();
    let refused = Err(Status::InvalidParameter);
    assert_eq!(usb_bus_add_wanted_usb_io_dp(&mut bus, Some(&path(&[&PCI, &END]))), refused);
    assert_eq!(usb_bus_add_wanted_usb_io_dp(&mut bus, Some(&USB_PORT_TWO)), refused);
    assert_eq!(usb_bus_add_wanted_usb_io_dp(&mut bus, Some(&[0x7f, 0xff])), refused);
    assert!(bus.wanted_usb_io_dp_list.items.is_empty());
    bus.signature = 0;
    assert_eq!(usb_bus_add_wanted_usb_io_dp(&mut bus, None), refused);
}

#[test]
fn the_serial_number_of_a_wwid_node_loses_its_terminator() {
    let with_zero = [3, 0x10, 16, 0, 0, 0, 1, 0, 2, 0, b'A', 0, b'B', 0, 0, 0];
    assert_eq!(read_wanted_serial(&with_zero), vec![0x41, 0x42]);
    let without = [3, 0x10, 14, 0, 0, 0, 1, 0, 2, 0, b'A', 0, b'B', 0x01];
    assert_eq!(read_wanted_serial(&without), vec![0x41, 0x0142]);
    assert!(ends_with(&[1, 2, 3], &[2, 3]));
    assert!(ends_with(&[1, 2, 3], &[]));
    assert!(!ends_with(&[1, 2, 3], &[1, 2]));
    assert!(!ends_with(&[3], &[2, 3]));
}

#[test]
fn the_host_controller_is_opened_for_children_with_handles() {
    let mut bus = bus();
    assert!(matches!(
        usb_open_host_proto_by_child(&bus, 5),
        Some(Action::OpenHostProtocol { host: 9, agent: 7, child: 5 })
    ));
    assert!(matches!(
        usb_close_host_proto_by_child(&bus, 5),
        Some(Action::CloseHostProtocol { host: 9, agent: 7, child: 5 })
    ));
    assert!(usb_open_host_proto_by_child(&bus, 0).is_none());
    assert!(usb_close_host_proto_by_child(&bus, 0).is_none());
    bus.agent = 0;
    assert!(usb_open_host_proto_by_child(&bus, 5).is_none());
}

#[test]
fn remaining_paths_are_collected_node_by_node() {
    let usb = EfiDevicePathProtocol { node_type: 3, sub_type: 5, length: 6 };
    let end = EfiDevicePathProtocol { node_type: 0x7f, sub_type: 0xff, length: 4 };
    let nodes = vec![
        PathNode { header: usb, data: vec![2, 0] },
        PathNode { header: end, data: Vec::new() },
    ];
    let whole = path(&[&USB_PORT_TWO, &END]);
    assert_eq!(collect_device_path(Some(&nodes)), Ok(Some(whole.clone())));
    assert_eq!(collect_device_path(None), Ok(None));
    assert_eq!(collect_device_path(Some(&Vec::new())), Err(Status::InvalidParameter));
    assert!(matches!(collect_for_running_bus(Some(&nodes)), Ok(Remaining::Connect(Some(p))) if p == whole));
    assert!(matches!(collect_for_running_bus(None), Ok(Remaining::Connect(None))));
    let at_end = vec![PathNode { header: end, data: Vec::new() }];
    assert!(matches!(collect_for_running_bus(Some(&at_end)), Ok(Remaining::AtEnd)));
    assert!(matches!(collect_for_running_bus(Some(&Vec::new())), Err(Status::InvalidParameter)));
}

#[test]
fn class_nodes_are_plain_values() {
    let header = EfiDevicePathProtocol { node_type: 3, sub_type: 0x0f, length: 11 };
    let node = UsbClassDevicePath {
        header,
        vendor_id: 0xffff,
        product_id: 0xffff,
        device_class: 0xff,
        device_sub_class: 0xff,
        device_protocol: 0xff,
    };
    assert_eq!(node, node.clone());
}
