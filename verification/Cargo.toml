[package]
name = "particle_playground"
version = "0.1.0"
edition = "2021"
publish = false

[dependencies]
rand = "*"
wgpu = "*"
winit = "*"
egui = "*"
egui-wgpu = "*"
egui-winit = "*"
pollster = "*"
log = "*"
colored = "*"
anyhow = "*"
bytemuck = { version = "*", features = ["derive"] }
glam = "*"
