[package]
name = "wgpu_renderer"
version = "0.1.0"
edition = "2021"
publish = false

[dependencies]
ab_glyph = "0.2"
bytemuck = { version = "1", features = ["derive"] }
env_logger = "0.11"
image = { version = "0.25", default-features = false, features = ["png", "jpeg"] }
pollster = "0.3"
rand = "0.8"
wgpu = "0.20"
winit = "0.30"
