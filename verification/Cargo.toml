[package]
name = "oxide_os"
version = "0.1.0"
edition = "2021"
publish = false

[dependencies]
spin = "=0.12.3"
bootloader = { version = "=0.9.35", features = ["map_physical_memory"] }
