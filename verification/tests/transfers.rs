use usb_bus::driver::new_usb_bus;
use usb_bus::status::Status;
use usb_bus::task::{Action, AsyncCallback, Frame, Reply, Request, Task};
use usb_bus::usb_2_host_controller::{
    Usb2HcTransactionTranslator, UsbDataDirection, UsbDeviceRequest,
};
use usb_bus::usb_bus_defs::{InterfaceId, UsbBus, UsbDevice, UsbInterface, USB_INTERFACE_SIGNATURE};
use usb_bus::usb_control::{usb_ctrl_get_desc, usb_request_type};
use usb_bus::usb_desc::{usb_parse_config_desc, DeviceDescriptor, UsbDeviceDesc};
use usb_bus::usb_enumer::usb_create_device;
use usb_bus::usb_hub::usb_hub_ctrl_clear_tt_buffer;
use usb_bus::usb_io_impl::{
    usb_io_async_isochronous_transfer, usb_io_clear_feature, usb_io_get_config_descriptor,
    usb_io_get_device_descriptor, usb_io_get_endpoint_descriptor, usb_io_get_interface_descriptor,
    usb_io_get_supported_languages, usb_io_isochronous_transfer, IoAsyncInterruptTransfer,
    IoControlTransfer, IoControlTransferAt, IoEndpointTransfer, IoEndpointTransferAt,
};
use usb_bus::usb_interface::copy_interface_desc;

const FIRST: InterfaceId = InterfaceId { device: 1, index: 0 };
const MISSING: InterfaceId = InterfaceId { device: 1, index: 1 };

fn config() -> Vec<u8> {
    vec![
        9, 2, 48, 0, 1, 1, 0, 0x80, 50, // configuration
        9, 4, 0, 0, 2, 8, 6, 80, 0, // interface
        7, 5, 0x81, 2, 64, 0, 0, // bulk in
        7, 5, 0x82, 3, 8, 0, 10, // interrupt in
        9, 4, 0, 1, 1, 8, 6, 98, 0, // interface, other setting
        7, 5, 0x83, 2, 0, 2, 0, // bulk in
    ]
}

fn bus() -> UsbBus {
    let mut bus = new_usb_bus(7, 9, vec![0x7f, 0xff, 4, 0], 2);
    let parsed = usb_parse_config_desc(&config()).unwrap();
    let root = InterfaceId { device: 0, index: 0 };
    let mut device = usb_create_device(bus.devices[0].as_ref().unwrap(), root, 0);
    device.address = 1;
    device.speed = 1;
    device.max_packet0 = 8;
    device.active_config = Some(parsed.descriptor);
    device.translator =
        Usb2HcTransactionTranslator { translator_hub_address: 3, translator_port_number: 2 };
    device.interfaces[0] = Some(UsbInterface {
        signature: USB_INTERFACE_SIGNATURE,
        if_desc: Some(copy_interface_desc(&parsed.interfaces[0])),
        handle: 5,
        device_path: vec![0x7f, 0xff, 4, 0],
        is_managed: false,
        is_hub: false,
        hub_api: None,
        num_of_port: 0,
        hub_notify: 0,
        hub_ep: None,
        hub_interrupt_context: false,
        change_map: Vec::new(),
        max_speed: 0,
        poll_count: 0,
    });
    device.num_of_interface = 1;
    let bytes = [18, 1, 0, 2, 0, 0, 0, 64, 0x34, 0x12, 1, 0, 0, 1, 1, 2, 3, 1];
    device.dev_desc = Some(UsbDeviceDesc { descriptor: DeviceDescriptor::read(&bytes), configs: Vec::new() });
    device.lang_id[0] = 0x0409;
    device.total_lang_id = 1;
    let mut hub = usb_create_device(bus.devices[0].as_ref().unwrap(), root, 1);
    hub.address = 3;
    hub.speed = 2;
    bus.devices[1] = Some(device);
    bus.devices[3] = Some(hub);
    bus
}

fn device(bus: &mut UsbBus) -> &mut UsbDevice {
    bus.devices[1].as_mut().unwrap()
}

fn interface(bus: &mut UsbBus) -> &mut UsbInterface {
    device(bus).interfaces[0].as_mut().unwrap()
}

fn toggle(bus: &mut UsbBus, setting: usize, slot: usize) -> u8 {
    interface(bus).if_desc.as_ref().unwrap().settings[setting].endpoints[slot].unwrap().toggle
}

/// Runs an operation, answering each piece of work from a list.
fn run(bus: &mut UsbBus, frame: Frame, answers: Vec<Reply>) -> (Vec<Action>, Status) {
    let mut task = Task::new(frame);
    let mut reply = Reply::Nothing;
    let mut answers = answers.into_iter();
    let mut actions = Vec::new();
    loop {
        match task.resume(bus, reply) {
            Request::Act(action) => {
                actions.push(action);
                reply = answers.next().unwrap_or(Reply::Status(Status::Success));
            }
            Request::Continue(next) => reply = next,
            Request::Finished(Reply::Status(status)) => return (actions, status),
            Request::Finished(other) => panic!("no status: {:?}", other),
        }
    }
}

fn moved(status: Status, length: usize, usb_result: u32, toggle: u8) -> Reply {
    Reply::Transfer { status, data: Vec::new(), length, usb_result, toggle }
}

fn request(request_type: u8, request: u8, value: u16, index: u16) -> IoControlTransfer {
    IoControlTransfer {
        interface: FIRST,
        request: UsbDeviceRequest { request_type, request, value, index, length: 4 },
        direction: 0,
        timeout: 77,
        data_length: 4,
        at: IoControlTransferAt::Start,
    }
}

#[test]
fn a_control_transfer_goes_to_the_device() {
    let mut bus = bus();
    let ask = request(0x80, 6, 0x0100, 0);
    let (actions, status) =
        run(&mut bus, Frame::IoControlTransfer(ask), vec![moved(Status::Success, 4, 0, 0)]);
    assert_eq!(status, Status::Success);
    assert_eq!(actions.len(), 1);
    match &actions[0] {
        Action::CallerControlTransfer(t) => {
            assert_eq!((t.address, t.speed, t.max_packet), (1, 1, 8));
            assert_eq!(t.direction, UsbDataDirection::In);
            assert_eq!(t.length, 4);
            assert_eq!(t.timeout, 77);
            assert_eq!(t.request, ask.request);
            assert_eq!(t.translator.translator_hub_address, 3);
        }
        other => panic!("{:?}", other),
    }
}

#[test]
fn a_short_control_transfer_is_an_error() {
    let mut bus = bus();
    let ask = request(0x80, 6, 0x0100, 0);
    let (actions, status) =
        run(&mut bus, Frame::IoControlTransfer(ask), vec![moved(Status::Success, 3, 0, 0)]);
    assert_eq!(status, Status::DeviceError);
    assert_eq!(actions.len(), 1);
    let mut ask = ask;
    ask.direction = 2;
    let (_, status) =
        run(&mut bus, Frame::IoControlTransfer(ask), vec![moved(Status::Success, 3, 0, 0)]);
    assert_eq!(status, Status::Success);
}

#[test]
fn a_failed_control_transfer_frees_the_translator() {
    let mut bus = bus();
    for answer in [moved(Status::Timeout, 0, 0x40, 0), moved(Status::Success, 4, 0x40, 0)] {
        let expected = if matches!(answer, Reply::Transfer { status: Status::Timeout, .. }) {
            Status::Timeout
        } else {
            Status::Success
        };
        let ask = request(0x80, 6, 0x0100, 0);
        let (actions, status) = run(&mut bus, Frame::IoControlTransfer(ask), vec![answer]);
        assert_eq!(status, expected);
        assert_eq!(actions.len(), 2);
        match &actions[1] {
            Action::ControlTransfer(t) => {
                assert_eq!(t.address, 3);
                assert_eq!(t.request.request_type, 0x23);
                assert_eq!(t.request.request, 8);
                assert_eq!(t.request.value, 0x0010);
                assert_eq!(t.request.index, 3);
            }
            other => panic!("{:?}", other),
        }
    }
    bus.devices[3] = None;
    let ask = request(0x80, 6, 0x0100, 0);
    let (actions, _) =
        run(&mut bus, Frame::IoControlTransfer(ask), vec![moved(Status::Timeout, 0, 0, 0)]);
    assert_eq!(actions.len(), 1);
}

#[test]
fn control_transfers_are_refused_without_a_device() {
    let mut bus = bus();
    let mut ask = request(0x80, 6, 0x0100, 0);
    ask.direction = 3;
    assert_eq!(run(&mut bus, Frame::IoControlTransfer(ask), Vec::new()).1, Status::InvalidParameter);
    ask.direction = 0;
    ask.interface = MISSING;
    assert_eq!(run(&mut bus, Frame::IoControlTransfer(ask), Vec::new()).1, Status::InvalidParameter);
    ask.interface = FIRST;
    interface(&mut bus).signature = 0;
    assert_eq!(run(&mut bus, Frame::IoControlTransfer(ask), Vec::new()).1, Status::InvalidParameter);
    interface(&mut bus).signature = USB_INTERFACE_SIGNATURE;
    device(&mut bus).connected = false;
    let (actions, status) = run(&mut bus, Frame::IoControlTransfer(ask), Vec::new());
    assert_eq!(status, Status::DeviceError);
    assert!(actions.is_empty());
}

#[test]
fn clearing_a_halt_clears_the_toggle() {
    let mut bus = bus();
    interface(&mut bus).if_desc.as_mut().unwrap().settings[0].endpoints[0].as_mut().unwrap().toggle = 1;
    let clear = usb_io_clear_feature(FIRST, 2, 0, 0x81);
    assert_eq!(clear.request.request_type, 2);
    assert_eq!(clear.timeout, 10);
    let (actions, status) = run(&mut bus, Frame::IoControlTransfer(clear), vec![moved(Status::Success, 0, 0, 0)]);
    assert_eq!(status, Status::Success);
    assert_eq!(actions.len(), 1);
    assert_eq!(toggle(&mut bus, 0, 0), 0);
}

#[test]
fn a_set_interface_request_switches_the_setting() {
    let mut bus = bus();
    let (_, status) = run(
        &mut bus,
        Frame::IoControlTransfer(request(1, 11, 1, 0)),
        vec![moved(Status::Success, 4, 0, 0)],
    );
    assert_eq!(status, Status::Success);
    assert_eq!(interface(&mut bus).if_desc.as_ref().unwrap().active_index, 1);
    assert_eq!(usb_io_get_interface_descriptor(&bus, FIRST).unwrap().alternate_setting, 1);
    let (_, status) = run(
        &mut bus,
        Frame::IoControlTransfer(request(1, 11, 7, 0)),
        vec![moved(Status::Success, 4, 0, 0)],
    );
    assert_eq!(status, Status::NotFound);
    let (_, status) = run(
        &mut bus,
        Frame::IoControlTransfer(request(1, 11, 7, 9)),
        vec![moved(Status::Success, 4, 0, 0)],
    );
    assert_eq!(status, Status::Success);
    assert_eq!(interface(&mut bus).if_desc.as_ref().unwrap().active_index, 1);
}

fn bulk(endpoint: u8) -> Frame {
    Frame::IoBulkTransfer(IoEndpointTransfer {
        interface: FIRST,
        endpoint,
        timeout: 50,
        at: IoEndpointTransferAt::Start,
    })
}

fn interrupt(endpoint: u8) -> Frame {
    Frame::IoSyncInterruptTransfer(IoEndpointTransfer {
        interface: FIRST,
        endpoint,
        timeout: 50,
        at: IoEndpointTransferAt::Start,
    })
}

#[test]
fn a_bulk_transfer_keeps_the_toggle() {
    let mut bus = bus();
    let (actions, status) = run(&mut bus, bulk(0x81), vec![moved(Status::Success, 0, 0, 1)]);
    assert_eq!(status, Status::Success);
    match &actions[0] {
        Action::BulkTransfer(t) => {
            assert_eq!((t.address, t.endpoint, t.speed, t.max_packet), (1, 0x81, 1, 64));
            assert_eq!((t.toggle, t.timeout), (0, 50));
        }
        other => panic!("{:?}", other),
    }
    assert_eq!(toggle(&mut bus, 0, 0), 1);
    let (actions, _) = run(&mut bus, bulk(0x81), vec![moved(Status::Success, 0, 0, 0)]);
    assert!(matches!(&actions[0], Action::BulkTransfer(t) if t.toggle == 1));
    assert_eq!(toggle(&mut bus, 0, 0), 0);
}

#[test]
fn a_failed_bulk_transfer_frees_the_translator() {
    let mut bus = bus();
    let (actions, status) = run(&mut bus, bulk(0x81), vec![moved(Status::Timeout, 0, 0, 1)]);
    assert_eq!(status, Status::Timeout);
    assert_eq!(toggle(&mut bus, 0, 0), 1);
    assert!(matches!(&actions[1], Action::ControlTransfer(t) if t.request.value == 0x1010));
}

#[test]
fn transfers_need_an_endpoint_of_the_right_kind() {
    let mut bus = bus();
    for endpoint in [0x00, 0x80, 0x10, 0x90, 0x82, 0x83, 0x01] {
        let (actions, status) = run(&mut bus, bulk(endpoint), Vec::new());
        assert_eq!(status, Status::InvalidParameter);
        assert!(actions.is_empty());
    }
    for endpoint in [0x80, 0x81, 0x84] {
        let (actions, status) = run(&mut bus, interrupt(endpoint), Vec::new());
        assert_eq!(status, Status::InvalidParameter);
        assert!(actions.is_empty());
    }
    device(&mut bus).connected = false;
    assert_eq!(run(&mut bus, bulk(0x81), Vec::new()).1, Status::DeviceError);
    assert_eq!(run(&mut bus, interrupt(0x82), Vec::new()).1, Status::DeviceError);
}

#[test]
fn a_synchronous_interrupt_transfer_keeps_the_toggle() {
    let mut bus = bus();
    let (actions, status) = run(&mut bus, interrupt(0x82), vec![moved(Status::Timeout, 0, 0, 1)]);
    assert_eq!(status, Status::Timeout);
    assert_eq!(actions.len(), 1);
    assert!(matches!(&actions[0], Action::SyncInterruptTransfer(t) if t.max_packet == 8));
    assert_eq!(toggle(&mut bus, 0, 1), 1);
}

#[test]
fn a_queued_transfer_can_be_taken_off_after_the_device_has_gone() {
    let mut bus = bus();
    let queue = |is_new_transfer: bool| {
        Frame::IoAsyncInterruptTransfer(IoAsyncInterruptTransfer {
            interface: FIRST,
            endpoint: 0x82,
            is_new_transfer,
            polling_interval: 10,
            data_length: 8,
            callback: AsyncCallback::Caller,
            asked: false,
        })
    };
    let (actions, status) = run(&mut bus, queue(true), vec![moved(Status::Success, 0, 0, 1)]);
    assert_eq!(status, Status::Success);
    match &actions[0] {
        Action::AsyncInterruptTransfer(t) => {
            assert_eq!((t.endpoint, t.polling_interval, t.length), (0x82, 10, 8));
            assert_eq!(t.callback, AsyncCallback::Caller);
            assert!(t.is_new_transfer);
        }
        other => panic!("{:?}", other),
    }
    assert_eq!(toggle(&mut bus, 0, 1), 1);
    device(&mut bus).connected = false;
    assert_eq!(run(&mut bus, queue(true), Vec::new()).1, Status::DeviceError);
    let (actions, status) = run(&mut bus, queue(false), vec![moved(Status::Success, 0, 0, 0)]);
    assert_eq!(status, Status::Success);
    assert!(matches!(&actions[0], Action::AsyncInterruptTransfer(t) if !t.is_new_transfer && t.toggle == 1));
}

#[test]
fn isochronous_transfers_are_not_supported() {
    assert_eq!(usb_io_isochronous_transfer(), Status::Unsupported);
    assert_eq!(usb_io_async_isochronous_transfer(), Status::Unsupported);
}

#[test]
fn descriptors_are_handed_out() {
    let mut bus = bus();
    assert_eq!(usb_io_get_device_descriptor(&bus, FIRST).unwrap().id_vendor, 0x1234);
    assert_eq!(usb_io_get_config_descriptor(&bus, FIRST).unwrap().total_length, 48);
    assert_eq!(usb_io_get_interface_descriptor(&bus, FIRST).unwrap().interface_protocol, 80);
    assert_eq!(usb_io_get_endpoint_descriptor(&bus, FIRST, 1).unwrap().endpoint_address, 0x82);
    assert_eq!(usb_io_get_endpoint_descriptor(&bus, FIRST, 2), Err(Status::NotFound));
    assert_eq!(usb_io_get_endpoint_descriptor(&bus, FIRST, 16), Err(Status::InvalidParameter));
    let (languages, size) = usb_io_get_supported_languages(&bus, FIRST).unwrap();
    assert_eq!(languages[0], 0x0409);
    assert_eq!(size, 2);
    device(&mut bus).dev_desc = None;
    device(&mut bus).active_config = None;
    device(&mut bus).total_lang_id = 0xffff;
    assert_eq!(usb_io_get_device_descriptor(&bus, FIRST), Err(Status::NotFound));
    assert_eq!(usb_io_get_config_descriptor(&bus, FIRST), Err(Status::NotFound));
    assert_eq!(usb_io_get_supported_languages(&bus, FIRST).unwrap().1, 0xffff);
    assert_eq!(usb_io_get_device_descriptor(&bus, MISSING), Err(Status::InvalidParameter));
    assert_eq!(usb_io_get_endpoint_descriptor(&bus, MISSING, 0), Err(Status::InvalidParameter));
    device(&mut bus).connected = false;
    assert_eq!(usb_io_get_device_descriptor(&bus, FIRST), Err(Status::DeviceError));
    assert_eq!(usb_io_get_config_descriptor(&bus, FIRST), Err(Status::DeviceError));
    assert_eq!(usb_io_get_interface_descriptor(&bus, FIRST), Err(Status::DeviceError));
    assert_eq!(usb_io_get_endpoint_descriptor(&bus, FIRST, 16), Err(Status::DeviceError));
    assert_eq!(usb_io_get_supported_languages(&bus, FIRST), Err(Status::DeviceError));
    interface(&mut bus).if_desc = None;
    assert_eq!(usb_io_get_interface_descriptor(&bus, FIRST), Err(Status::InvalidParameter));
}

#[test]
fn a_translator_buffer_is_named_by_its_transaction() {
    let bus = bus();
    let hub = bus.devices[3].as_ref().unwrap();
    let transfer = usb_hub_ctrl_clear_tt_buffer(hub, 2, 5, 0x81, 2);
    assert_eq!(transfer.request.value, 0x1051);
    assert_eq!(transfer.request.index, 3);
    assert_eq!(transfer.request.request_type, 0x23);
    assert_eq!(transfer.direction, UsbDataDirection::NoData);
}

#[test]
fn descriptors_are_asked_for_by_type_and_index() {
    let mut bus = bus();
    let transfer = usb_ctrl_get_desc(device(&mut bus), 3, 7, 0x0409, 255);
    assert_eq!(transfer.request.request_type, 0x80);
    assert_eq!(transfer.request.request, 6);
    assert_eq!(transfer.request.value, 0x0307);
    assert_eq!(transfer.request.index, 0x0409);
    assert_eq!(transfer.request.length, 255);
    assert_eq!(transfer.timeout, 500);
    let transfer = usb_ctrl_get_desc(device(&mut bus), 0x123, 0x456, 0, 8);
    assert_eq!(transfer.request.value, 0x2756);
    assert_eq!(usb_request_type(true, 0x20, 3), 0xa3);
    assert_eq!(usb_request_type(false, 0x20, 3), 0x23);
}
