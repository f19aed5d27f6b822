//! Core of a UEFI USB bus driver: descriptor parsing, device-path policy, hub
//! handling, enumeration and the USB I/O services, as verified code.
//!
//! The library never touches hardware or firmware. Work that has to leave the
//! library is described by a `task::Action`; whoever drives the library performs
//! it and hands back a `task::Reply`. The state of the bus is the plain value
//! `usb_bus_defs::UsbBus`.

pub mod absence_laws;
pub mod bits;
pub mod connecting;
pub mod descriptor_laws;
pub mod device_path;
pub mod driver;
pub mod driver_laws;
pub mod enumeration_laws;
pub mod hub_laws;
pub mod hub_life;
pub mod hub_port;
pub mod interface_laws;
pub mod interface_life;
pub mod path_laws;
pub mod removal;
pub mod request_laws;
pub mod search;
pub mod status;
pub mod task;
pub mod transfer_laws;
pub mod usb_2_host_controller;
pub mod usb_bus_defs;
pub mod usb_config;
pub mod usb_control;
pub mod usb_desc;
pub mod usb_enumer;
pub mod usb_hub;
pub mod usb_interface;
pub mod usb_io_call;
pub mod usb_io_impl;
pub mod usb_utility;
pub mod usb_wanted;
pub mod wanted_laws;
