[package]
name = "vk_renderer"
version = "0.1.0"
edition = "2021"
publish = false

[dependencies]
ash = "=0.31.0"
crossbeam = "=0.8.5"
gltf = "=0.15.2"
egui = "=0.10.0"
epi = "=0.10.0"
glam = "=0.13.1"
winit = "=0.24.0"
fern = "=0.6.2"
chrono = "=0.4.45"
log = "=0.4.35"
anyhow = "=1.0.104"
bytemuck = "1"
rand = { version = "0.8", features = ["small_rng"] }
