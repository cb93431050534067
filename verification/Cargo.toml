[package]
name = "dauber"
version = "0.1.0"
edition = "2021"
publish = false

[dependencies]
bytemuck = { version = "1", features = ["derive"] }
image = { version = "0.24", default-features = false, features = ["png"] }
lyon = "1.0"
pollster = "0.3"
wgpu = "0.17"
