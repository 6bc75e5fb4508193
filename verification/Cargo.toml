[package]
name = "nes_bus"
version = "0.1.0"
edition = "2021"
publish = false

[dependencies]
anyhow = "1"
flutter_rust_bridge = "1"
log = "0.4"
once_cell = "1"
