[package]
name = "body_measurements"
version = "0.1.0"
edition = "2021"
publish = false

[dependencies]
axum = "0.6"
bson = { version = "2", features = ["chrono-0_4"] }
chrono = { version = "0.4", features = ["serde"] }
mongodb = { version = "2", features = ["bson-chrono-0_4"] }
serde = { version = "1", features = ["derive"] }
tokio = { version = "1", features = ["full"] }
tower-http = { version = "0.4", features = ["cors"] }
tracing = "0.1"
tracing-subscriber = "0.3"
