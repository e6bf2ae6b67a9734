[package]
name = "user_service"
version = "0.1.0"
edition = "2021"
publish = false

[dependencies]
async-trait = "*"
axum = "*"
chrono = { version = "*", features = ["serde"] }
log = "*"
serde = { version = "*", features = ["derive"] }
serde_json = "*"
thiserror = "*"
tokio = { version = "*", features = ["full"] }
tower-http = { version = "*", features = ["trace"] }
tracing = "*"
uuid = { version = "*", features = ["v4", "serde"] }
validator = { version = "*", features = ["derive"] }
