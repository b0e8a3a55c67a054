[package]
name = "render_pipeline"
version = "0.1.0"
edition = "2021"
publish = false

[dependencies]
bytemuck = { version = "1", features = ["derive"] }
cgmath = "0.18"
env_logger = "0.10"
futures = "0.3"
gltf = "1"
image = "0.24"
log = "0.4"
wgpu = "0.14"
winit = "0.27"
