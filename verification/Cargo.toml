[package]
name = "gpu_bootstrap"
version = "0.1.0"
edition = "2021"
publish = false

[dependencies]
winit = { version = "=0.30.13", default-features = false, features = ["rwh_06", "x11"] }
raw-window-handle = { version = "=0.6.2", features = ["std"] }
thiserror = "=2.0.21"
