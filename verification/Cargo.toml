[package]
name = "cricket_live_gateway"
version = "0.1.0"
edition = "2021"
publish = false

[dependencies]
anyhow = "*"
axum = { version = "*", features = ["ws"] }
futures = "*"
redis = { version = "*", features = ["tokio-comp", "connection-manager"] }
serde = { version = "*", features = ["derive"] }
serde_json = "*"
tokio = { version = "*", features = ["full"] }
tower = "*"
tower-http = { version = "*", features = ["cors", "timeout", "trace"] }
tracing = "*"
tracing-subscriber = "*"
