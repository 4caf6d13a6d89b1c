[package]
name = "morde_rs"
version = "0.1.0"
edition = "2021"
publish = false

[dependencies]
axum = "*"
base64 = "*"
eyre = "*"
http = "*"
serde = { version = "*", features = ["derive"] }
serde_json = "*"
tracing = "*"
