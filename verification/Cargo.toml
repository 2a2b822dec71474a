[package]
name = "easytier_pro"
version = "0.1.0"
edition = "2021"
publish = false

[dependencies]
semver = "1"
serde = { version = "1", features = ["derive"] }
serde_json = "1"
anyhow = "1"
reqwest = { version = "0.12", default-features = false, features = ["blocking", "json", "rustls-tls", "stream"] }
tokio = { version = "1", features = ["fs", "io-util", "rt"] }
tokio-stream = "0.1"
tauri = { version = "2", default-features = false }
