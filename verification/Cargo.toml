[package]
name = "cardinal"
version = "0.1.0"
edition = "2021"
publish = false

[dependencies]
wgpu = "0.12"
winit = "0.26"
tokio = { version = "1", features = ["macros", "rt-multi-thread"] }
