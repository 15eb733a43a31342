[package]
name = "parking_lot_lite_hack"
version = "0.12.5"
edition = "2021"
publish = false

[dependencies]
libc = "0.2"
parking_lot_core = "0.9"
windows-sys = { version = "0.59", features = ["Win32_System_Threading", "Win32_System_Performance"] }
