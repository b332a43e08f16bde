[package]
name = "azure_cognitive_speech_services"
version = "0.1.0"
edition = "2021"
publish = false

[dependencies]
async-stream-lite = "=0.2.1"
futures-util = { version = "=0.3.34", features = ["sink"] }
http = "=1.5.0"
serde = { version = "=1.0.229", features = ["derive"] }
simd-json = "=0.18.1"
speech-synthesis = "=0.4.0"
ssml = "=0.2.0"
thiserror = "=2.0.21"
tokio = { version = "=1.54.1", features = ["net"] }
tokio-websockets = { version = "=0.13.3", features = ["client", "fastrand", "sha1_smol"] }
tracing = "=0.1.44"
uuid = { version = "=1.29.0", features = ["v4"] }
