[package]
name = "gpuwu"
version = "0.1.0"
edition = "2021"
publish = false

[dependencies]
anyhow = "1"
bytemuck = { version = "1", features = ["derive"] }
cosmic-text = "=0.10.0"
env_logger = "0.10"
image = { version = "0.24", default-features = false, features = ["png"] }
log = "0.4"
pollster = "0.3"
wgpu = "0.17"
winit = "0.28"
