[package]
name = "re_viewer"
version = "0.1.0"
edition = "2021"
publish = false

[dependencies]
ahash = "=0.8.12"
anyhow = "1"
eframe = { version = "=0.33.3", default-features = false, features = ["wgpu", "x11", "persistence"] }
egui = { version = "=0.33.3", default-features = false }
egui-wgpu = { version = "=0.33.3", default-features = false, features = ["winit", "x11"] }
image = { version = "=0.25.10", default-features = false, features = ["png"] }
parking_lot = "=0.12.5"
rfd = "=0.15.4"
web-time = "1"
wgpu = { version = "=27.0.1", default-features = false, features = ["std", "wgsl", "vulkan"] }
