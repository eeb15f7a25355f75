[package]
name = "bonbo_executor"
version = "0.1.0"
edition = "2021"
publish = false

[dependencies]
rust_decimal = "1"
anyhow = "1"
uuid = { version = "1", features = ["v4"] }
dirs = "5"
serde = { version = "1", features = ["derive"] }
serde_json = "1"
tokio = { version = "1", features = ["full"] }
async-trait = "0.1"
tracing = "0.1"
tracing-subscriber = { version = "0.3", features = ["env-filter"] }
chrono = "0.4"
axum = "0.7"
tower-http = { version = "0.5", features = ["cors"] }
