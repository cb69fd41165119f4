[package]
name = "printer_gateway"
version = "0.1.0"
edition = "2021"
publish = false

[dependencies]
serialport = { version = "*", default-features = false }
serde = { version = "*", features = ["derive"] }
windows-sys = { version = "*", features = ["Win32_Foundation", "Win32_Graphics_Printing"] }
