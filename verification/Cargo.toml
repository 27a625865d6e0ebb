[package]
name = "rotating_cube"
version = "0.1.0"
edition = "2021"
publish = false

[dependencies]
bytemuck = "*"
glam = "*"
pollster = "*"
wgpu = "*"
winit = "*"
