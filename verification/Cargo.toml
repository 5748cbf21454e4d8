[package]
name = "vknew"
version = "0.1.0"
edition = "2021"
publish = false

[dependencies]
ash = "=0.38.0"
wgpu = { version = "=25.0.2", features = ["spirv"] }
raw-window-handle = "=0.6.2"
