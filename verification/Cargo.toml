[package]
name = "studio_effects"
version = "0.1.0"
edition = "2021"
publish = false

[dependencies]
anyhow = "1"
log = "0.4"
env_logger = "0.10"
serde = { version = "1", features = ["derive"] }
serde_json = "1"
notify = "6"
ndarray = "0.15"
gstreamer = "0.20"
gtk4 = "0.6"
ort = "=2.0.0-rc.0"
