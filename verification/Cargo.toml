[package]
name = "vehicle_sim"
version = "0.1.0"
edition = "2021"
publish = false

[dependencies]
bevy = { version = "=0.15.3", default-features = false }
bevy_rapier3d = { version = "=0.29.0", default-features = false, features = ["dim3"] }
csv = "1"
serde = { version = "1", features = ["derive"] }
