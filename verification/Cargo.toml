[package]
name = "mpc_recovery"
version = "0.1.0"
edition = "2021"
publish = false

[dependencies]
anyhow = "1"
chrono = "0.4"
clap = { version = "4", features = ["derive"] }
hyper = { version = "0.14", features = ["full"] }
hyper-rustls = { version = "0.24", features = ["http2"] }
jsonwebtoken = "9"
near-account-id = "1"
rand = "0.7"
serde = { version = "1", features = ["derive"] }
serde_json = "1"
threshold_crypto = "0.4"
tokio = { version = "1", features = ["full"] }
tracing-subscriber = { version = "0.3", features = ["env-filter"] }
