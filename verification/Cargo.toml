[package]
name = "gpu_automata"
version = "0.1.0"
edition = "2021"
publish = false

[dependencies]
rand = "=0.10.3"
regex = "=1.13.1"
image = { version = "=0.25.10", default-features = false }
bytemuck = "=1.25.2"
pollster = "=1.0.1"
wgpu = "=28.0.0"
winit = "=0.30.13"
egui = "=0.33.3"
egui_wgpu_backend = "=0.36.0"
egui_winit_platform = "=0.28.0"
env_logger = "=0.11.11"
