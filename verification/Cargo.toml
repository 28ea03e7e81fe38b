[package]
name = "wadm"
version = "0.1.0"
edition = "2021"
publish = false

[dependencies]
anyhow = "=1.0.104"
async-nats = "=0.33.0"
base64 = "=0.21.7"
jsonschema = { version = "=0.17.1", default-features = false }
serde = { version = "=1.0.229", features = ["derive"] }
serde_json = "=1.0.154"
serde_yaml = "=0.9.34"
tokio = { version = "=1.54.1", features = ["sync"] }
tracing = "=0.1.44"
wadm-types = "=0.8.3"
