[package]
name = "mcp_sdk"
version = "0.2.0"
edition = "2021"
publish = false

[dependencies]
serde = { version = "=1.0.229", features = ["derive"] }
serde_json = "=1.0.154"
tokio = { version = "=1.54.1", features = ["rt-multi-thread", "macros", "sync", "io-std", "io-util", "net"] }
tracing = "=0.1.44"
axum = "=0.7.9"
