[package]
name = "chat_store"
version = "0.1.0"
edition = "2021"
publish = false

[dependencies]
log = "0.4"
redis = { version = "0.23", default-features = false, features = ["aio", "tokio-comp"] }
serde = "1"
serde_json = "1"
