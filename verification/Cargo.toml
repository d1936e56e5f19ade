[package]
name = "iwd_devices"
version = "0.1.0"
edition = "2021"
publish = false

[dependencies]
serde_json = "1"
zbus = "*"
async-std = { version = "1", features = ["attributes"] }
