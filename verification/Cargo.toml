[package]
name = "sls"
version = "0.1.0"
edition = "2021"
publish = false

[dependencies]
sha256 = "1"
serde = { version = "1", features = ["derive"] }
serde_json = "1"
mongodb = "2"
warp = "0.3"
tokio = { version = "1", features = ["full"] }
futures = "0.3"
walkdir = "2"
chrono = "0.4"
pretty_env_logger = "0.5"
