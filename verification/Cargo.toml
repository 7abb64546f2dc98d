[package]
name = "segment_backend"
version = "0.1.0"
edition = "2021"
publish = false

[dependencies]
anyhow = "1"
ascii = "1"
base64 = "0.22"
candle-core = "*"
candle-nn = "*"
candle-transformers = "*"
image = { version = "0.24", default-features = false, features = ["png", "jpeg"] }
serde = { version = "1", features = ["derive"] }
serde_json = "1"
tiny_http = "0.12"
