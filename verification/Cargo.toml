[package]
name = "ferrum"
version = "0.1.0"
edition = "2021"
publish = false

[dependencies]
anyhow = "1"
bytes = "1"
chrono = "0.4"
clap = { version = "4", features = ["derive"] }
dirs = "*"
env_logger = "*"
http-body-util = "0.1"
hyper = { version = "1", features = ["client", "server", "http1"] }
hyper-util = { version = "0.1", features = ["client-legacy", "http1", "tokio"] }
log = "0.4"
tokio = { version = "1", features = ["full"] }
