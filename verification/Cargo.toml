[package]
name = "wgpus"
version = "0.1.0"
edition = "2021"
publish = false

[dependencies]
env_logger = "0.10"
rand = "0.8"
tokio = { version = "1", features = ["macros", "rt-multi-thread"] }
wgpu = "0.14"
winit = "0.27"
