[package]
name = "projcam"
version = "0.1.0"
edition = "2021"
publish = false

[dependencies]
glam = { version = "0.25", default-features = false, features = ["std", "scalar-math"] }
bytemuck = { version = "1", features = ["derive"] }
log = "0.4"
env_logger = "0.11"
instant = "0.1"
