[package]
name = "golem_cli"
version = "0.1.0"
edition = "2021"
publish = false

[dependencies]
serde = { version = "=1.0.229", features = ["derive"] }
serde_json = "=1.0.151"
serde_yaml = "=0.9.34"
reqwest = { version = "=0.12.28", default-features = false, features = ["rustls-tls", "json"] }
tokio = { version = "=1.53.2", features = ["rt-multi-thread", "macros", "signal"] }
tracing = "=0.1.44"
tracing-subscriber = "=0.3.23"
