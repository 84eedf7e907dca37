[package]
name = "quad_render"
version = "0.1.0"
edition = "2021"
publish = false

[dependencies]
wgpu = "0.7"
winit = "0.24"
