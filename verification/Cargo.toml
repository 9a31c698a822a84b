[package]
name = "mandelsnot"
version = "0.1.0"
edition = "2021"
publish = false

[dependencies]
anyhow = "1"
bytemuck = "1"
eframe = { version = "0.22", default-features = false, features = ["wgpu", "default_fonts"] }
env_logger = "0.10"
