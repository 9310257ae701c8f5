[package]
name = "webrtc"
version = "0.1.0"
edition = "2021"
publish = false

[dependencies]
bytes = "=1.12.1"
rand = "=0.9.5"
ipnet = "=2.12.2"
tokio = { version = "=1.54.1", features = ["net"] }
hmac = "0.12"
sha2 = "0.10"
