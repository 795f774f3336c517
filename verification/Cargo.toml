[package]
name = "pr_checker"
version = "0.1.0"
edition = "2021"
publish = false

[dependencies]
env_logger = "0.11"
error-chain = "0.12"
log = "0.4"
reqwest = { version = "0.12", features = ["blocking", "json"] }
serde = { version = "1", features = ["derive"] }
serde_json = "1"
