[package]
name = "spacecraft_builder"
version = "0.1.0"
edition = "2021"
publish = false

[dependencies]
clipboard = "=0.5.0"
ellipsoid = "=0.3.1"
serde = { version = "=1.0.229", features = ["derive"] }
serde_json = "=1.0.154"
strum = { version = "=0.24.1", features = ["derive"] }
tokio = { version = "=1.54.1", features = ["full"] }
