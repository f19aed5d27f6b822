use usb_bus::usb_desc::{
    usb_create_desc, usb_parse_config_desc, usb_parse_interface_desc, ConfigDescriptor, DeviceDescriptor,
    USB_DESC_TYPE_CONFIG, USB_DESC_TYPE_DEVICE, USB_DESC_TYPE_ENDPOINT, USB_DESC_TYPE_INTERFACE,
    USB_DESC_TYPE_STRING,
};
use usb_bus::usb_interface::{copy_interface_desc, usb_find_setting, usb_next_bit, usb_select_setting};
use usb_bus::status::Status;

const INTERFACE_WITH_TWO_ENDPOINTS: [u8; 9] = [9, USB_DESC_TYPE_INTERFACE, 0, 0, 2, 0xff, 0, 0, 0];
const ENDPOINT_ONE: [u8; 7] = [7, USB_DESC_TYPE_ENDPOINT, 0x81, 3, 8, 0, 10];
const ENDPOINT_TWO: [u8; 7] = [7, USB_DESC_TYPE_ENDPOINT, 0x02, 2, 64, 0, 0];

fn config(total: u16, interfaces: u8, rest: &[u8]) -> Vec<u8> {
    let mut bytes = vec![
        9,
        USB_DESC_TYPE_CONFIG,
        (total % 256) as u8,
        (total / 256) as u8,
        interfaces,
        1,
        0,
        0x80,
        50,
    ];
    bytes.extend_from_slice(rest);
    bytes
}

fn interface(number: u8, alternate: u8, endpoints: u8) -> Vec<u8> {
    vec![9, USB_DESC_TYPE_INTERFACE, number, alternate, endpoints, 3, 1, 2, 0]
}

#[test]
fn parses_all_interface_endpoints() {
    let mut bytes = Vec::from(INTERFACE_WITH_TWO_ENDPOINTS);
    bytes.extend_from_slice(&ENDPOINT_ONE);
    bytes.extend_from_slice(&ENDPOINT_TWO);

    let (setting, consumed) = usb_parse_interface_desc(&bytes).expect("interface should parse");

    assert_eq!(consumed, bytes.len());
    assert_eq!(setting.endpoints.len(), 2);
    assert!(setting.endpoints[0].is_some());
    assert!(setting.endpoints[1].is_some());
    let first = setting.endpoints[0].unwrap();
    assert_eq!(first.descriptor.endpoint_address, 0x81);
    assert_eq!(first.descriptor.max_packet_size, 8);
    assert_eq!(first.descriptor.interval, 10);
    assert_eq!(first.toggle, 0);
    assert_eq!(setting.endpoints[1].unwrap().descriptor.max_packet_size, 64);
}

#[test]
fn preserves_partial_interface_when_endpoint_data_ends() {
    let mut bytes = Vec::from(INTERFACE_WITH_TWO_ENDPOINTS);
    bytes.extend_from_slice(&ENDPOINT_ONE);

    let (setting, consumed) = usb_parse_interface_desc(&bytes).expect("partial interface should parse");

    assert_eq!(consumed, bytes.len());
    assert_eq!(setting.endpoints.len(), 2);
    assert!(setting.endpoints[0].is_some());
    assert!(setting.endpoints[1].is_none());
}

#[test]
fn refuses_an_interface_whose_endpoints_are_something_else() {
    let mut bytes = Vec::from(INTERFACE_WITH_TWO_ENDPOINTS);
    bytes.extend_from_slice(&[4, 0x21, 0, 0]);
    assert!(usb_parse_interface_desc(&bytes).is_none());
}

#[test]
fn skips_other_descriptors_on_the_way() {
    let mut bytes = vec![3, 0x21, 0xaa];
    bytes.extend_from_slice(&INTERFACE_WITH_TWO_ENDPOINTS);
    bytes.extend_from_slice(&[2, 0x24]);
    bytes.extend_from_slice(&ENDPOINT_ONE);
    let (setting, consumed) = usb_parse_interface_desc(&bytes).unwrap();
    assert_eq!(consumed, bytes.len());
    assert_eq!(setting.endpoints[0].unwrap().descriptor.endpoint_address, 0x81);
}

#[test]
fn finds_the_first_descriptor_of_a_type() {
    let mut bytes = vec![3, 0x21, 0xaa];
    bytes.extend_from_slice(&ENDPOINT_ONE);
    bytes.extend_from_slice(&ENDPOINT_TWO);
    let (found, consumed) = usb_create_desc(&bytes, USB_DESC_TYPE_ENDPOINT).unwrap();
    assert_eq!(found, Vec::from(ENDPOINT_ONE));
    assert_eq!(consumed, 10);
    assert!(usb_create_desc(&bytes, USB_DESC_TYPE_CONFIG).is_none());
    assert!(usb_create_desc(&bytes, USB_DESC_TYPE_STRING).is_none());
}

#[test]
fn refuses_descriptors_that_are_empty_too_short_or_cut_off() {
    assert!(usb_create_desc(&[0, USB_DESC_TYPE_ENDPOINT], USB_DESC_TYPE_ENDPOINT).is_none());
    assert!(usb_create_desc(&[6, USB_DESC_TYPE_ENDPOINT, 0, 0, 0, 0], USB_DESC_TYPE_ENDPOINT).is_none());
    assert!(usb_create_desc(&[7, USB_DESC_TYPE_ENDPOINT, 0, 0], USB_DESC_TYPE_ENDPOINT).is_none());
    assert!(usb_create_desc(&[7], USB_DESC_TYPE_ENDPOINT).is_none());
    assert!(usb_create_desc(&[], USB_DESC_TYPE_ENDPOINT).is_none());
}

#[test]
fn a_longer_descriptor_is_cut_to_its_known_part() {
    let mut bytes = vec![9, USB_DESC_TYPE_ENDPOINT, 0x83, 1, 2, 1, 4, 0x55, 0x66];
    bytes.push(0x77);
    let (found, consumed) = usb_create_desc(&bytes, USB_DESC_TYPE_ENDPOINT).unwrap();
    assert_eq!(found, vec![9, USB_DESC_TYPE_ENDPOINT, 0x83, 1, 2, 1, 4]);
    assert_eq!(consumed, 9);
}

#[test]
fn parses_a_configuration_with_its_settings_in_place() {
    let mut rest = interface(1, 0, 1);
    rest.extend_from_slice(&ENDPOINT_ONE);
    rest.extend_from_slice(&interface(0, 0, 0));
    rest.extend_from_slice(&interface(1, 1, 0));
    let total = 9 + rest.len() as u16;
    let bytes = config(total, 2, &rest);
    let parsed = usb_parse_config_desc(&bytes).unwrap();
    assert_eq!(parsed.descriptor.total_length, total);
    assert_eq!(parsed.descriptor.configuration_value, 1);
    assert_eq!(parsed.descriptor.max_power, 50);
    assert_eq!(parsed.interfaces.len(), 2);
    assert_eq!(parsed.interfaces[0].settings.len(), 1);
    assert_eq!(parsed.interfaces[1].settings.len(), 2);
    assert_eq!(parsed.interfaces[1].settings[0].descriptor.alternate_setting, 0);
    assert_eq!(parsed.interfaces[1].settings[1].descriptor.alternate_setting, 1);
    assert!(parsed.interfaces[1].settings[0].endpoints[0].is_some());
    assert_eq!(parsed.interfaces[1].active_index, 0);
}

#[test]
fn a_configuration_ends_at_its_total_length() {
    let mut rest = interface(0, 0, 0);
    rest.extend_from_slice(&interface(0, 1, 0));
    let bytes = config(18, 1, &rest);
    let parsed = usb_parse_config_desc(&bytes).unwrap();
    assert_eq!(parsed.interfaces[0].settings.len(), 1);
}

#[test]
fn refuses_a_setting_of_an_unknown_interface() {
    let rest = interface(2, 0, 0);
    assert!(usb_parse_config_desc(&config(18, 2, &rest)).is_none());
}

#[test]
fn refuses_too_many_settings() {
    let mut rest: Vec<u8> = Vec::new();
    for _ in 0..257 {
        rest.extend_from_slice(&interface(0, 0, 0));
    }
    let total = 9 + rest.len() as u16;
    assert!(usb_parse_config_desc(&config(total, 1, &rest)).is_none());
    let total = total - 9;
    let parsed = usb_parse_config_desc(&config(total, 1, &rest)).unwrap();
    assert_eq!(parsed.interfaces[0].settings.len(), 256);
}

#[test]
fn refuses_bytes_without_a_configuration() {
    assert!(usb_parse_config_desc(&interface(0, 0, 0)).is_none());
    assert!(usb_parse_config_desc(&[]).is_none());
}

#[test]
fn reads_the_fields_of_a_device_descriptor() {
    let bytes = [
        18,
        USB_DESC_TYPE_DEVICE,
        0x00,
        0x03,
        9,
        1,
        2,
        64,
        0x34,
        0x12,
        0x78,
        0x56,
        0x01,
        0x02,
        1,
        2,
        3,
        4,
    ];
    let descriptor = DeviceDescriptor::read(&bytes);
    assert_eq!(descriptor.bcd_usb, 0x0300);
    assert_eq!(descriptor.device_class, 9);
    assert_eq!(descriptor.max_packet_size0, 64);
    assert_eq!(descriptor.id_vendor, 0x1234);
    assert_eq!(descriptor.id_product, 0x5678);
    assert_eq!(descriptor.bcd_device, 0x0201);
    assert_eq!(descriptor.str_serial_number, 3);
    assert_eq!(descriptor.num_configurations, 4);
    let short = ConfigDescriptor::read(&[9, 2, 40]);
    assert_eq!(short.total_length, 40);
    assert_eq!(short.num_interfaces, 0);
}

#[test]
fn selecting_a_setting_clears_its_toggles() {
    let mut rest = interface(0, 0, 0);
    rest.extend_from_slice(&interface(0, 5, 2));
    rest.extend_from_slice(&ENDPOINT_ONE);
    rest.extend_from_slice(&ENDPOINT_TWO);
    let total = 9 + rest.len() as u16;
    let parsed = usb_parse_config_desc(&config(total, 1, &rest)).unwrap();
    let mut desc = copy_interface_desc(&parsed.interfaces[0]);
    if let Some(endpoint) = &mut desc.settings[1].endpoints[1] {
        endpoint.toggle = 1;
    }
    assert_eq!(usb_find_setting(&desc, 5), Some(1));
    assert_eq!(usb_find_setting(&desc, 6), None);
    assert_eq!(usb_select_setting(&mut desc, 6), Status::NotFound);
    assert_eq!(desc.active_index, 0);
    assert_eq!(desc.settings[1].endpoints[1].unwrap().toggle, 1);
    assert_eq!(usb_select_setting(&mut desc, 5), Status::Success);
    assert_eq!(desc.active_index, 1);
    assert_eq!(desc.settings[1].endpoints[1].unwrap().toggle, 0);
}

#[test]
fn the_next_bit_may_lie_in_the_next_byte() {
    let (mut byte, mut bit) = (0, 6);
    usb_next_bit(&mut byte, &mut bit);
    assert_eq!((byte, bit), (0, 7));
    usb_next_bit(&mut byte, &mut bit);
    assert_eq!((byte, bit), (1, 0));
}
