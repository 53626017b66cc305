[package]
name = "jingwei"
version = "0.1.0"
edition = "2021"
publish = false

[dependencies]
serde = { version = "1", features = ["derive"] }
serde_json = "1"
jsonschema = { version = "*", default-features = false }
thiserror = "2"
tokio = { version = "1", features = ["rt", "sync", "time", "macros"] }
tokio-util = "0.7"
futures = "0.3"
async-stream = "0.3"
tracing = "0.1"
