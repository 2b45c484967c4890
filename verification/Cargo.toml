[package]
name = "oncaptions_backend"
version = "0.1.0"
edition = "2021"
publish = false

[dependencies]
anyhow = "1"
cpal = "*"
futures-util = { version = "0.3", features = ["sink"] }
pulsectl-rs = "*"
rusqlite = "*"
serde = { version = "1", features = ["derive"] }
serde_json = "1"
sherpa-onnx = "*"
tokio = { version = "1", features = ["full"] }
tokio-tungstenite = "*"
tracing = "0.1"
tracing-subscriber = { version = "0.3", features = ["env-filter"] }
ureq = { version = "2", features = ["json"] }
