[package]
name = "ezix"
version = "0.1.0"
edition = "2021"
publish = false

[dependencies]
serde_json = "*"
log = "*"
env_logger = "*"
time = { version = "*", features = ["local-offset"] }
