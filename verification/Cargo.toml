[package]
name = "render_core"
version = "0.1.0"
edition = "2021"
publish = false

[dependencies]
anyhow = "1"
bytemuck = { version = "1", features = ["derive"] }
env_logger = "0.9"
futures = "0.3"
image = { version = "0.23", default-features = false }
wgpu = "0.9"
winit = "0.25"
