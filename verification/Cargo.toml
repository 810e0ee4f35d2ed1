[package]
name = "jobflow"
version = "0.1.0"
edition = "2021"
publish = false

[dependencies]
chrono = "=0.4.45"
axum = "=0.8.9"
tokio = { version = "=1.53.2", features = ["full"] }
serde = { version = "=1.0.229", features = ["derive"] }
serde_json = "=1.0.151"
uuid = { version = "=1.27.0", features = ["v4", "serde"] }
futures = "=0.3.34"
tokio-stream = "=0.1.19"
reqwest = { version = "=0.13.5", default-features = false, features = ["json"] }
