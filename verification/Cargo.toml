[package]
name = "glhf"
version = "0.1.0"
edition = "2021"
publish = false

[dependencies]
anyhow = "1"
bytemuck = { version = "1", features = ["derive"] }
glutin = "0.32"
glutin-winit = "0.5"
winit = "0.30"
