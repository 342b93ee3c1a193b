[package]
name = "image_preview"
version = "0.1.0"
edition = "2021"
publish = false

[dependencies]
image = { version = "=0.25.10", default-features = false, features = ["png", "jpeg"] }
serde = { version = "=1.0.229", features = ["derive"] }
futures = "=0.3.34"
smol = "=2.0.2"
ros2-client = "=0.11.0"
show-image = { version = "0.12", default-features = false }
