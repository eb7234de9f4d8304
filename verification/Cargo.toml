[package]
name = "geepu"
version = "0.1.0"
edition = "2021"
publish = false

[dependencies]
bytemuck = "*"
image = "*"
wgpu = "*"
winit = "0.30"
tokio = { version = "1", features = ["macros", "rt-multi-thread"] }
tracing = "*"
tracing-subscriber = "*"
