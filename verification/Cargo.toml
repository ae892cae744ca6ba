[package]
name = "madori"
version = "0.1.0"
edition = "2021"
publish = false

[dependencies]
garasu = "=0.1.19"
ishou-tokens = { version = "=0.1.24", features = ["wgpu"] }
pollster = "=1.0.1"
serde = { version = "=1.0.229", features = ["derive"] }
thiserror = "=2.0.21"
tracing = "=0.1.44"
wgpu = "=25.0.2"
winit = "=0.30.13"
