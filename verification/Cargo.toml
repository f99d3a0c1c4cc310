[package]
name = "phantun"
version = "0.1.0"
edition = "2021"
publish = false

[dependencies]
async-trait = "0.1"
clap = { version = "4", features = ["cargo"] }
log = "0.4"
num_cpus = "1"
pretty_env_logger = "0.5"
serde = { version = "1", features = ["derive"] }
serde_json = "1"
tokio = { version = "1", features = ["full"] }
tokio-tun = "*"
tokio-util = "0.7"
windivert = "0.6"
