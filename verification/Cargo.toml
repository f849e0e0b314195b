[package]
name = "messenger_bot"
version = "0.1.0"
edition = "2021"
publish = false

[dependencies]
url = "2"
serde_json = "1"
serde = { version = "1", features = ["derive"] }
gotham = "0.4"
hyper = "0.12"
hyper-tls = "0.3"
futures = "0.1"
http = "0.1"
mime = "0.3"
pretty_env_logger = "0.3"
