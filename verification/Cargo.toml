[package]
name = "auth_service"
version = "0.1.0"
edition = "2021"
publish = false

[dependencies]
base64 = "0.21"
dotenvy = "0.15"
futures = "0.3"
hyper = { version = "0.14", features = ["full"] }
mongodb = "2"
serde = { version = "1", features = ["derive"] }
serde_json = "1"
sha2 = "0.10"
tokio = { version = "1", features = ["full"] }
uuid = { version = "1", features = ["v4"] }
