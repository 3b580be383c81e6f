[package]
name = "retention"
version = "0.1.0"
edition = "2021"
publish = false

[dependencies]
chrono = "*"
clap = { version = "*", features = ["derive"] }
futures = "*"
postgres = "*"
prompts = "*"
serde = { version = "*", features = ["derive"] }
serde_yaml = "*"
