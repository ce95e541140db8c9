[package]
name = "hashchain"
version = "0.1.0"
edition = "2021"
publish = false

[dependencies]
sha3 = "=0.12.0"
serde = { version = "*", features = ["derive"] }
chrono = "*"
axum = { version = "*", features = ["multipart"] }
tokio = { version = "*", features = ["full"] }
tokio-util = { version = "*", features = ["io"] }
tower = "*"
tower-http = { version = "*", features = ["fs", "trace"] }
tracing = "*"
tracing-subscriber = "*"
futures = "*"
bonsaidb = { version = "*", features = ["local"] }
