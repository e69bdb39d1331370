[package]
name = "minecone"
version = "0.1.0"
edition = "2021"
publish = false

[dependencies]
dashmap = "=6.2.1"
crossbeam = "=0.8.5"
rustc-hash = "=2.1.3"
array-init = "=2.1.0"
parking_lot = "=0.12.5"
num_cpus = "=1.17.0"
log = "=0.4.34"
pretty_env_logger = "=0.5.0"
anyhow = "=1.0.104"
glam = "0.21"
noise = "0.7"
statrs = "0.15"
bytemuck = { version = "1", features = ["derive"] }
image = "0.24"
pollster = "0.2"
wgpu = "0.13"
winit = "0.26"
egui = "0.18"
egui_wgpu_backend = "0.18"
egui_winit_platform = "0.15"
