[package]
name = "stl_gallery"
version = "0.1.0"
edition = "2021"
publish = false

[dependencies]
anyhow = "1"
bytemuck = { version = "1", features = ["derive"] }
clap = { version = "4", features = ["derive"] }
crossbeam-channel = "0.5"
glam = "0.29"
image = { version = "0.25", default-features = false, features = ["png"] }
pollster = "0.3"
stl_io = "0.8"
wgpu = "22"
