[package]
name = "richat-plugin-agave"
version = "0.1.0"
edition = "2021"
publish = false

[dependencies]
agave-geyser-plugin-interface = "=3.0.14"
anyhow = "=1.0.104"
log = "=0.4.34"
richat-shared = { version = "=7.2.1", default-features = false, features = ["config"] }
serde = { version = "=1.0.229", features = ["derive"] }
serde_json = "=1.0.154"
tokio = { version = "=1.54.1", features = ["rt-multi-thread"] }
tokio-util = "=0.7.20"
