[package]
name = "skeet_longer"
version = "0.1.0"
edition = "2021"
publish = false

[dependencies]
anyhow = "1"
async-stream = "0.3"
atrium-api = "*"
atrium-xrpc-client = "*"
axum = "0.8"
chrono = "0.4"
futures = "0.3"
html-escape = "0.2"
regex-lite = "0.1"
reqwest = "0.12"
serde = { version = "1", features = ["derive"] }
serde_json = "1"
thiserror = "2"
tokio = { version = "1", features = ["full"] }
tokio-stream = "0.1"
tracing = "0.1"
tracing-subscriber = { version = "0.3", features = ["env-filter"] }
url = "2"
