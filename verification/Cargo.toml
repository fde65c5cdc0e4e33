[package]
name = "fabseal_worker"
version = "0.1.0"
edition = "2021"
publish = false

[dependencies]
rand = "*"
redis = "*"
signal-hook = "*"
tempfile = "*"
config = "*"
serde = { version = "*", features = ["derive"] }
log = "*"
env_logger = "*"
