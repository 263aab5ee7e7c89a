[package]
name = "render_demo"
version = "0.1.0"
edition = "2021"
publish = false

[dependencies]
glam = "0.24"
bytemuck = { version = "1", features = ["derive"] }
wgpu = "0.16"
winit = { version = "0.28", default-features = false, features = ["x11"] }
pollster = "0.3"
env_logger = "0.10"
log = "0.4"
tobj = { version = "3.2", features = ["async"] }
