[package]
name = "blog"
version = "0.1.0"
edition = "2021"
publish = false

[dependencies]
axum = "*"
tokio = { version = "*", features = ["rt-multi-thread", "macros", "net"] }
tower-http = { version = "*", features = ["fs", "trace"] }
tracing-subscriber = { version = "*", features = ["env-filter"] }
