[package]
name = "kv_gateway"
version = "0.1.0"
edition = "2021"
publish = false

[dependencies]
axum = "=0.8.9"
keyv = { version = "=0.3.0", features = ["postgres"] }
serde_json = "=1.0.151"
tokio = { version = "=1.53.2", features = ["full"] }
