[package]
name = "microcall"
version = "0.1.0"
edition = "2021"
publish = false

[dependencies]
serde_json = "1"
uuid = { version = "0.6", features = ["v4"] }
hyper = "0.11"
futures = "0.1"
futures-cpupool = "0.1"
tokio-core = "0.1"
tokio-uds = "0.1"
log = "0.4"
env_logger = "0.5"
