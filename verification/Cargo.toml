[package]
name = "upload_service"
version = "0.1.0"
edition = "2021"
publish = false

[dependencies]
nanoid = "=0.4.0"
multipart = { version = "=0.18.0", default-features = false, features = ["server"] }
rocket = { version = "0.5", default-features = false }
tokio-util = { version = "0.7", default-features = false, features = ["io-util"] }
