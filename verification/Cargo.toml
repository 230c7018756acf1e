[package]
name = "redis_sink"
version = "0.1.0"
edition = "2021"
publish = false

[dependencies]
log = "*"
redis = "*"
serde = { version = "*", features = ["derive"] }
serde_json = "*"
