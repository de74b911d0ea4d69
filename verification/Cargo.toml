[package]
name = "usb_screen"
version = "0.1.0"
edition = "2021"
publish = false

[dependencies]
anyhow = "1"
env_logger = { version = "*", default-features = false }
image = { version = "*", default-features = false, features = ["png"] }
log = "0.4"
serialport = { version = "*", default-features = false }
