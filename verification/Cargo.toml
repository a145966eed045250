[package]
name = "quadrender"
version = "0.1.0"
edition = "2021"
publish = false

[dependencies]
bytemuck = "1"
futures-intrusive = "0.4"
image = { version = "0.24", default-features = false, features = ["png", "jpeg"] }
pollster = "0.2"
wgpu = "0.14"
