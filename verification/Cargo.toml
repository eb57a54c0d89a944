[package]
name = "teledex"
version = "0.1.0"
edition = "2021"
publish = false

[dependencies]
log = "*"
pretty_env_logger = "*"
reqwest = { version = "*", default-features = false, features = ["blocking", "json"] }
serde = { version = "*", features = ["derive"] }
serde_json = "*"
