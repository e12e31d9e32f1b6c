[package]
name = "echo_service"
version = "0.1.0"
edition = "2021"
publish = false

[dependencies]
anyhow = "=1.0.104"
bytes = "=1.12.1"
chrono = "=0.4.45"
crossbeam-channel = "=0.5.17"
hex = "=0.4.3"
http = "=0.2.12"
hyper = { version = "=0.14.32", features = ["full"] }
mbedtls = { version = "=0.13.6", features = ["ssl", "async", "rdrand"] }
serde = { version = "=1.0.229", features = ["derive"] }
serde_json = "=1.0.154"
sha2 = "=0.10.9"
tokio = { version = "=1.54.1", features = ["full"] }
