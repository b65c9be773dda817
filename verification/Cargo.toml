[package]
name = "ws_relay"
version = "0.1.0"
edition = "2021"
publish = false

[dependencies]
tokio = { version = "*", features = ["full"] }
serde_json = "*"
uuid = { version = "*", features = ["v4"] }
axum = { version = "*", features = ["ws"] }
futures = "*"
