[package]
name = "bob_fusion"
version = "0.1.0"
edition = "2021"
publish = false

[dependencies]
axum = "0.6"
hyper = { version = "0.14", features = ["full"] }
http = "0.2"
tokio = { version = "1", features = ["macros", "rt-multi-thread"] }
tower = "0.4"
tower-http = { version = "0.4", features = ["cors"] }
utoipa = { version = "4", features = ["yaml"] }
serde = { version = "1", features = ["derive"] }
serde_yaml = "0.9"
serde_with = "3"
thiserror = "1"
error-stack = "0.4"
clap = { version = "4", features = ["derive", "cargo"] }
lazy_static = "1"
build-time = "0.1"
tracing = "0.1"
tracing-subscriber = "0.3"
tracing-appender = "0.2"
file-rotate = "0.7"
