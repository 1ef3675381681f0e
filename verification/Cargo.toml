[package]
name = "bine"
version = "0.1.0"
edition = "2021"
publish = false

[dependencies]
anyhow = "*"
bytemuck = { version = "*", features = ["derive"] }
cgmath = "*"
env_logger = "*"
image = { version = "*", default-features = false, features = ["png"] }
pollster = "*"
wgpu = "*"
winit = "*"
