[package]
name = "globe_map"
version = "0.1.0"
edition = "2021"
publish = false

[dependencies]
anyhow = "=1.0.104"
bytemuck = { version = "=1.25.2", features = ["derive"] }
freedesktop-desktop-entry = "*"
freedesktop-icons = "*"
futures = "=0.3.34"
glam = "=0.30.10"
image = { version = "=0.25.10", default-features = false, features = ["png"] }
serde = { version = "=1.0.229", features = ["derive"] }
tokio = { version = "=1.54.1", features = ["rt-multi-thread", "sync"] }
tracing = "=0.1.44"
tray-item = "*"
wgpu = "28"
