[package]
name = "matrix-rocketchat"
version = "0.1.0"
edition = "2021"
publish = false

[dependencies]
diesel = { version = "=2.3.14", features = ["sqlite"] }
error-chain = "=0.12.4"
hyper = "=0.10.16"
iron = "=0.6.1"
lazy_static = "=1.5.1"
router = "=0.6.0"
ruma-events = "=0.35.2"
ruma-identifiers = "=0.22.1"
serde = { version = "=1.0.229", features = ["derive"] }
serde_derive = "=1.0.229"
serde_json = "=1.0.154"
serde_yaml = "=0.9.34"
slog = "=2.8.2"
slog-term = "=2.9.2"
yaml-rust = "=0.4.5"
