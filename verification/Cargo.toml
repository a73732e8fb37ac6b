[package]
name = "netcore"
version = "0.1.0"
edition = "2021"
publish = false

[dependencies]
serde = { version = "=1.0.229", features = ["derive"] }
serde_json = "=1.0.154"
toml = "=0.8.23"
uuid = { version = "=1.29.0", features = ["v4"] }
chrono = "=0.4.45"
chrono-tz = "=0.10.4"
clap = { version = "4", features = ["derive"] }
