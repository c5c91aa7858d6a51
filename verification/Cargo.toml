[package]
name = "blur_rect"
version = "0.1.0"
edition = "2021"
publish = false

[dependencies]
wgpu = "0.16"
winit = { version = "0.28", default-features = false, features = ["x11"] }
egui = "0.22"
egui-wgpu = "0.22"
egui-winit = { version = "0.22", default-features = false }
image = { version = "0.24", default-features = false, features = ["png"] }
pollster = "0.3"
raw-window-handle = "0.5"
bytemuck = "1"
