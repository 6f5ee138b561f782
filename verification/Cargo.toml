[package]
name = "osrs_scene"
version = "0.1.0"
edition = "2021"
publish = false

[dependencies]
anyhow = "*"
bytemuck = { version = "*", features = ["derive"] }
env_logger = "*"
glam = "*"
gltf = { version = "*", features = ["import", "utils", "names"] }
image = { version = "*", default-features = false, features = ["png"] }
pollster = "*"
wgpu = "*"
winit = "*"
