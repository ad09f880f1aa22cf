[package]
name = "splinter_backend"
version = "0.1.0"
edition = "2021"
publish = false

[dependencies]
base64 = "0.13"
protobuf = "2"
sawtooth-sdk = "0.4"
reqwest = { version = "0.11", default-features = false }
futures = "0.3"
serde = { version = "1", features = ["derive"] }
serde_json = "1"
