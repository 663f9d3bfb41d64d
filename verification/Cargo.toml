[package]
name = "nacos_rust_client"
version = "0.1.0"
edition = "2021"
publish = false

[dependencies]
serde_yaml = "=0.9.34"
nacos-sdk = "=0.8.3"
tokio = { version = "*", features = ["rt-multi-thread"] }
tracing = "=0.1.44"
tracing-appender = "=0.2.5"
tracing-subscriber = "=0.3.23"
