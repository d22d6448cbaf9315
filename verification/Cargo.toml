[package]
name = "opencode-cloud"
version = "0.1.0"
edition = "2021"
publish = false

[dependencies]
serde_json = "1"
rand = "0.9"
chrono = "0.4"
clap = { version = "4", features = ["derive"] }
console = "*"
