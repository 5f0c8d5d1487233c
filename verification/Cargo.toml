[package]
name = "webapp_rust"
version = "0.1.0"
edition = "2021"
publish = false

[dependencies]
anyhow = "*"
axum = { version = "*", features = ["multipart"] }
base64 = "*"
chrono = "*"
flate2 = "*"
serde = { version = "*", features = ["derive"] }
serde_json = "*"
sysinfo = "*"
tar = "*"
tokio = { version = "*", features = ["full"] }
uuid = { version = "*", features = ["v4"] }
