[package]
name = "rine"
version = "0.1.0"
edition = "2021"
publish = false

[dependencies]
egui = "0.22"
egui-wgpu = "0.22"
egui-winit = { version = "0.22", default-features = false }
log = "0.4"
pollster = "0.3"
wgpu = "0.16"
winit = { version = "0.28", default-features = false, features = ["x11"] }
