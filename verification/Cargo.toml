[package]
name = "extended-unified-camera-model"
version = "0.1.0"
edition = "2021"
publish = false

[dependencies]
cam-geom = "*"
nalgebra = "*"
serde = { version = "1", features = ["derive"] }

[dev-dependencies]
serde_json = "1"
