use r_efi::efi;
use usb_bus::status::Status;
use usb_bus::task::{TPL_CALLBACK, TPL_HIGH_LEVEL, TPL_NOTIFY};
use usb_bus::usb_2_host_controller::UsbPortFeature;
use usb_bus::usb_bus_defs::{
    signature, usb_bit, usb_bit_is_set, DEVICE_PATH_LIST_ITEM_SIGNATURE, USB_BUS_SIGNATURE,
    USB_INTERFACE_SIGNATURE,
};
use usb_bus::usb_control::usb_request_type;
use usb_bus::usb_hub::{usb_endpoint_addr, usb_endpoint_type};
use usb_bus::usb_io_impl::{
    USB_IO_DATA_IN, USB_IO_DATA_OUT, USB_IO_ERR_STALL, USB_IO_NOERROR, USB_IO_NO_DATA,
};

#[test]
fn statuses_have_the_codes_of_the_firmware_interface() {
    for (status, code) in [
        (Status::Success, efi::Status::SUCCESS),
        (Status::InvalidParameter, efi::Status::INVALID_PARAMETER),
        (Status::Unsupported, efi::Status::UNSUPPORTED),
        (Status::DeviceError, efi::Status::DEVICE_ERROR),
        (Status::OutOfResources, efi::Status::OUT_OF_RESOURCES),
        (Status::NotFound, efi::Status::NOT_FOUND),
        (Status::AccessDenied, efi::Status::ACCESS_DENIED),
        (Status::Timeout, efi::Status::TIMEOUT),
        (Status::AlreadyStarted, efi::Status::ALREADY_STARTED),
    ] {
        assert_eq!(status.code(), code.as_usize());
        assert_eq!(Status::from_code(code.as_usize()), status);
        assert_eq!(status.is_error(), code.is_error());
        assert_eq!(status.is_success(), code == efi::Status::SUCCESS);
    }
}

#[test]
fn warnings_and_vendor_codes_are_told_from_errors() {
    let warning = Status::from_code(5);
    assert_eq!(warning, Status::Other(5));
    assert!(!warning.is_error());
    assert!(!warning.is_success());
    let aborted = Status::from_code(efi::Status::ABORTED.as_usize());
    assert!(aborted.is_error());
    let vendor = usize::MAX - 3;
    assert_eq!(Status::from_code(vendor).is_error(), efi::Status::from_usize(vendor).is_error());
    assert_eq!(Status::from_code(vendor).code(), vendor);
}

#[test]
fn constants_agree_with_the_firmware_interface() {
    assert_eq!(TPL_CALLBACK, efi::TPL_CALLBACK);
    assert_eq!(TPL_NOTIFY, efi::TPL_NOTIFY);
    assert_eq!(TPL_HIGH_LEVEL, efi::TPL_HIGH_LEVEL);
    assert_eq!(USB_IO_DATA_IN, efi::protocols::usb_io::DATA_IN);
    assert_eq!(USB_IO_DATA_OUT, efi::protocols::usb_io::DATA_OUT);
    assert_eq!(USB_IO_NO_DATA, efi::protocols::usb_io::NO_DATA);
    assert_eq!(USB_IO_NOERROR, efi::protocols::usb_io::NOERROR);
    assert_eq!(USB_IO_ERR_STALL, efi::protocols::usb_io::ERR_STALL);
}

#[test]
fn signatures_spell_their_names() {
    assert_eq!(signature(b"USBI"), USB_INTERFACE_SIGNATURE);
    assert_eq!(signature(b"USBB"), USB_BUS_SIGNATURE);
    assert_eq!(signature(b"dpli"), DEVICE_PATH_LIST_ITEM_SIGNATURE);
}

#[test]
fn bits_are_made_and_tested() {
    assert_eq!(usb_bit(0), 1);
    assert_eq!(usb_bit(5), 32);
    assert!(usb_bit_is_set(0b1010, 0b1000));
    assert!(!usb_bit_is_set(0b1010, 0b1100));
    assert!(usb_bit_is_set(0b1010, 0));
}

#[test]
fn request_types_are_packed() {
    assert_eq!(usb_request_type(true, 0x00, 0x00), 0x80);
    assert_eq!(usb_request_type(true, 0x20, 0x03), 0xa3);
    assert_eq!(usb_request_type(false, 0x20, 0x00), 0x20);
    assert_eq!(usb_request_type(false, 0x00, 0x02), 0x02);
}

#[test]
fn endpoint_addresses_and_types_are_taken_apart() {
    assert_eq!(usb_endpoint_addr(0x81), 1);
    assert_eq!(usb_endpoint_addr(0x0f), 15);
    assert_eq!(usb_endpoint_type(0x07), 3);
    assert_eq!(usb_endpoint_type(0x0a), 2);
}

#[test]
fn port_features_have_their_selectors() {
    assert_eq!(UsbPortFeature::Enable.code(), 1);
    assert_eq!(UsbPortFeature::Suspend.code(), 2);
    assert_eq!(UsbPortFeature::Reset.code(), 4);
    assert_eq!(UsbPortFeature::Power.code(), 8);
    assert_eq!(UsbPortFeature::Owner.code(), 13);
    assert_eq!(UsbPortFeature::ConnectChange.code(), 16);
    assert_eq!(UsbPortFeature::ResetChange.code(), 20);
}
