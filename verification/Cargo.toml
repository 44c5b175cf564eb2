[package]
name = "bedrock"
version = "0.1.0"
edition = "2021"
publish = false

[dependencies]
bytemuck = "1"
glam = { version = "0.25", features = ["bytemuck", "serde"] }
rust-embed = "8"
serde = { version = "1", features = ["derive"] }
wgpu = { version = "0.19", default-features = false, features = ["spirv"] }
