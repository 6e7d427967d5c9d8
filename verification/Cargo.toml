[package]
name = "event_collections"
version = "0.1.0"
edition = "2021"
publish = false

[dependencies]
ruma-common = { version = "=0.11.3", features = ["api"] }
serde = { version = "=1.0.229", features = ["derive"] }
serde_json = "=1.0.154"
