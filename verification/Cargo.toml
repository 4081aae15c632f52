[package]
name = "relay_list"
version = "0.1.0"
edition = "2021"
publish = false

[dependencies]
base64 = "0.22"
hyper = "=1.12.0"
log = "=0.4.34"
serde = { version = "=1.0.229", features = ["derive"] }
serde_json = "=1.0.151"
