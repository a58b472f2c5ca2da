[package]
name = "serial_tool"
version = "0.1.0"
edition = "2021"
publish = false

[dependencies]
serialport = { version = "4", default-features = false }
native-windows-gui = "1"
