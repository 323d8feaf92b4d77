[package]
name = "p4nimau_rust"
version = "0.1.0"
edition = "2021"
publish = false

[dependencies]
rand = "=0.8.8"
serde = { version = "=1.0.229", features = ["derive"] }
serde_json = "=1.0.154"
vkclient = "=6.0.0"
tokio = { version = "=1.54.1", features = ["full"] }
reqwest = { version = "=0.12.28", default-features = false, features = ["rustls-tls", "multipart"] }
futures-util = "=0.3.34"
tempdir = "=0.3.7"
dotenvy = "=0.15.7"
