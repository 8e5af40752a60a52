[package]
name = "ums_class"
version = "0.1.0"
edition = "2021"
publish = false

[dependencies]
usb-device = "0.2"
log = "0.4"
