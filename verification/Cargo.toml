[package]
name = "fb2_gateway"
version = "0.1.0"
edition = "2021"
publish = false

[dependencies]
uuid = { version = "*", features = ["v4"] }
axum = "*"
axum-prometheus = "*"
async-tempfile = "*"
futures-util = "*"
sentry = { version = "*", default-features = false, features = ["debug-images"] }
tokio = { version = "*", features = ["full"] }
tokio-cron-scheduler = "*"
tokio-util = { version = "*", features = ["io"] }
tower-http = { version = "*", features = ["trace"] }
tracing = { version = "*", features = ["log"] }
tracing-subscriber = "*"
