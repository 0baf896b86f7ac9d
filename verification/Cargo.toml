[package]
name = "chat_relay"
version = "0.1.0"
edition = "2021"
publish = false

[dependencies]
actix = "=0.9.0"
actix-identity = "=0.2.1"
actix-rt = "=1.1.1"
actix-web = { version = "=2.0.0", default-features = false }
actix-web-actors = "=2.0.0"
chrono = "=0.4.19"
env_logger = "=0.7.1"
