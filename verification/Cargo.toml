[package]
name = "deskmon"
version = "0.1.0"
edition = "2021"
publish = false

[dependencies]
anyhow = "=1.0.104"
base64 = "=0.22.1"
device_query = "=1.1.3"
image = { version = "=0.24.9", default-features = false, features = ["png"] }
lazy_static = "=1.5.1"
serde = { version = "=1.0.229", features = ["derive"] }
sysinfo = "=0.29.11"
