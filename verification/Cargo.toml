[package]
name = "render_baby"
version = "0.1.0"
edition = "2021"
publish = false

[dependencies]
anyhow = "=1.0.104"
log = "=0.4.35"
env_logger = "=0.11.11"
serde = { version = "=1.0.229", features = ["derive"] }
glam = { version = "=0.34.2", features = ["bytemuck"] }
bytemuck = { version = "=1.25.2", features = ["derive"] }
tobj = "=4.0.5"
chrono = "=0.4.45"
wgpu = "*"
pollster = "*"
egui = "*"
