[package]
name = "midpoint_renderer"
version = "0.1.0"
edition = "2021"
publish = false

[dependencies]
bytemuck = "=1.25.2"
gltf = "=1.4.1"
image = { version = "=0.25.10", default-features = false, features = ["png", "jpeg"] }
nalgebra = "=0.32.6"
tiff = "0.9"
wgpu = { version = "=0.20.1", default-features = false, features = ["wgsl"] }
