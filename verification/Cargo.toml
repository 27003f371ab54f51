[package]
name = "rdrop"
version = "0.1.0"
edition = "2021"
publish = false

[dependencies]
clap = { version = "*", features = ["derive"] }
dirs = "*"
env_logger = "*"
serde = { version = "*", features = ["derive"] }
serde_json = "*"
twelf = { version = "*", features = ["yaml"] }
