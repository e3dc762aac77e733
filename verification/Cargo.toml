[package]
name = "server"
version = "0.1.0"
edition = "2021"
publish = false

[dependencies]
axum = "0.7"
crossbeam-queue = "0.3"
moka = { version = "0.12", features = ["sync", "future"] }
r2d2 = "0.8"
r2d2_sqlite = "*"
tokio = { version = "1", features = ["full"] }
tower-http = { version = "0.5", features = ["cors", "trace"] }
tracing = "0.1"
tracing-subscriber = { version = "0.3", features = ["env-filter"] }
