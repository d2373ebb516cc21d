[package]
name = "the_code"
version = "0.1.0"
edition = "2021"
publish = false

[dependencies]
image = { version = "*", default-features = false, features = ["png", "jpeg"] }
gltf = "*"
wgpu = "*"
winit = "*"
glam = "*"
pollster = "*"
bytemuck = { version = "*", features = ["derive"] }
