[package]
name = "anonpeer"
version = "0.1.0"
edition = "2021"
publish = false

[dependencies]
uuid = { version = "1", features = ["v4"] }
serde_json = "1"
base64 = "0.22"
chrono = "0.4"
tokio = { version = "1", features = ["full"] }
futures-util = "0.3"
tokio-tungstenite = "*"
tracing = "0.1"
tracing-subscriber = "0.3"
sqlx = { version = "0.8", default-features = false, features = ["sqlite", "runtime-tokio"] }
image = { version = "0.25", default-features = false, features = ["jpeg", "png", "webp"] }
