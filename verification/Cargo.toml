[package]
name = "stream_request"
version = "0.1.0"
edition = "2021"
publish = false

[dependencies]
chrono = { version = "=0.4.45", default-features = false, features = ["std"] }
humantime = "=2.4.0"
serde_json = { version = "=1.0.154", features = ["preserve_order"] }
url = "=2.5.8"
uuid = "=1.29.0"
