[package]
name = "pointer_overlay"
version = "0.1.0"
edition = "2021"
publish = false

[dependencies]
anyhow = "1"
async-std = { version = "1", features = ["attributes"] }
byteorder = "1"
env_logger = "*"
log = "0.4"
raw-window-handle = "0.5"
wgpu = "0.14"
x11rb = { version = "0.11", features = ["allow-unsafe-code", "randr", "shape"] }
