[package]
name = "framegraph"
version = "0.1.0"
edition = "2021"
publish = false

[dependencies]
anyhow = "1"
bytemuck = { version = "1", features = ["derive"] }
cgmath = "0.18"
gltf = "1"
image = { version = "0.25", default-features = false, features = ["png", "jpeg"] }
instant = "0.1"
log = "0.4"
tobj = { version = "4", features = ["async"] }
wgpu = "28"
winit = "0.30"
