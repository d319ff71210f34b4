[package]
name = "render_host"
version = "0.1.0"
edition = "2021"
publish = false

[dependencies]
anyhow = "*"
env_logger = "*"
log = "*"
pollster = "*"
wgpu = "*"
winit = "*"
