[package]
name = "usb_bus"
version = "0.1.0"
edition = "2021"
publish = false

[dependencies]
log = "=0.4.35"
patina = { version = "=24.1.1", features = ["alloc", "unstable-device-path"] }
r-efi = "=7.1.0"
scroll = { version = "=0.13.0", features = ["derive"] }
