[package]
name = "trae_register"
version = "0.1.0"
edition = "2021"
publish = false

[dependencies]
serde_json = "=1.0.154"
uuid = { version = "=1.29.0", features = ["v4"] }
url = "=2.5.8"
anyhow = "=1.0.104"
reqwest = { version = "=0.12.28", default-features = false, features = ["rustls-tls"] }
tokio = { version = "=1.54.1", features = ["time", "sync", "rt", "macros"] }
warp = { version = "=0.3.7", default-features = false }
