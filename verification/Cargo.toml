[package]
name = "gateway"
version = "0.1.0"
edition = "2021"
publish = false

[dependencies]
uuid = { version = "*", features = ["v4"] }
chrono = "*"
axum = "*"
tokio = { version = "*", features = ["rt-multi-thread", "macros", "sync", "net"] }
reqwest = { version = "*", default-features = false, features = ["json", "stream"] }
serde = { version = "*", features = ["derive"] }
serde_json = "*"
futures-util = "*"
tokio-stream = "*"
anyhow = "*"
