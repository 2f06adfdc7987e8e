[package]
name = "bvparty"
version = "0.1.0"
edition = "2021"
publish = false

[dependencies]
anyhow = "1"
bytemuck = { version = "1", features = ["derive"] }
byteorder = "1"
cgmath = "0.18"
env_logger = { version = "0.11", default-features = false }
image = { version = "0.25", default-features = false, features = ["png"] }
instant = "0.1"
log = "0.4"
lyon = "1"
matrix_operations = "0.1"
nalgebra = "0.33"
pollster = "0.3"
serde = { version = "1", features = ["derive"] }
serde_json = "1"
wgpu = { version = "22", default-features = false, features = ["wgsl"] }
