[package]
name = "deno_wsi"
version = "0.1.0"
edition = "2021"
publish = false

[dependencies]
deno_core = "=0.174.0"
raw-window-handle = "=0.5.2"
serde = { version = "=1.0.229", features = ["derive"] }
tokio = { version = "=1.54.1", features = ["rt", "sync"] }
wgpu-core = { version = "=0.15.1", features = ["gles", "replay", "trace"] }
wgpu-types = { version = "=0.15.2", features = ["replay", "trace"] }
winit = { version = "=0.28.7", default-features = false, features = ["x11"] }
