[package]
name = "pbr_spheres"
version = "0.1.0"
edition = "2021"
publish = false

[dependencies]
bytemuck = "1.9"
glam = { version = "=0.34.1", features = ["bytemuck", "libm"] }
rand = "=0.10.3"
wgpu = "=30.0.1"
winit = "=0.29.15"
pollster = "=1.0.1"
