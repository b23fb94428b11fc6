[package]
name = "screenshot_core"
version = "0.1.0"
edition = "2021"
publish = false

[dependencies]
image = { version = "0.24", default-features = false, features = ["png"] }
winit = "0.26"
wgpu = "0.12"
scrap = "0.5"
mouse-rs = "0.4"
clipboard-ext = "0.2"
dirs = "4"
pollster = "0.2"
bytemuck = { version = "1", features = ["derive"] }
