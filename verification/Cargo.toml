[package]
name = "session_bridge"
version = "0.1.0"
edition = "2021"
publish = false

[dependencies]
axum = { version = "=0.6.20", features = ["ws"] }
serde_json = "=1.0.154"
tokio = { version = "=1.54.1", features = ["full"] }
webrtc = "=0.9.0"
