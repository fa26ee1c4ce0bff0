[package]
name = "postloop"
version = "0.1.0"
edition = "2021"
publish = false

[dependencies]
serde = { version = "*", features = ["derive"] }
toml = "*"
clap = { version = "*", features = ["derive"] }
log = "*"
env_logger = "*"
chrono = "*"
