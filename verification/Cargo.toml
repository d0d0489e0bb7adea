[package]
name = "ethercat_plc"
version = "0.1.0"
edition = "2021"
publish = false

[dependencies]
crossbeam-channel = "*"

[dev-dependencies]
byteorder = "*"
