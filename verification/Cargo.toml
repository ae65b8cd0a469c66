[package]
name = "camera_man"
version = "0.1.0"
edition = "2021"
publish = false

[dependencies]
serde = { version = "=1.0.229", features = ["derive"] }
serde_json = "=1.0.154"
libc = "=0.2.191"
plist = "1"
