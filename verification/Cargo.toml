[package]
name = "utencore"
version = "0.0.5"
edition = "2021"
publish = false

[dependencies]
serde = { version = "=1.0.229", features = ["derive"] }
serde_json = "=1.0.154"
bincode = "=1.3.3"
serde_yaml = "0.9"
