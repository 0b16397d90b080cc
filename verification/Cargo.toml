[package]
name = "aiway_plugins"
version = "0.1.0"
edition = "2021"
publish = false

[dependencies]
aiway-plugin = { version = "=0.3.6", features = ["model"] }
base64 = "=0.22.1"
hmac = "=0.12.1"
sha2 = "=0.10.9"
http = "=1.5.0"
regex = "=1.13.1"
serde = { version = "=1.0.229", features = ["derive"] }
serde_json = "=1.0.154"
uuid = { version = "=1.29.1", features = ["v4"] }
reqwest = { version = "=0.12.28", default-features = false, features = ["blocking", "multipart", "rustls-tls"] }
