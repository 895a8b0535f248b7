[package]
name = "render_shell"
version = "0.1.0"
edition = "2021"
publish = false

[dependencies]
egui = "*"
egui-wgpu = "*"
egui-winit = "*"
env_logger = "*"
futures = "*"
log = "*"
wgpu = "*"
winit = "*"
