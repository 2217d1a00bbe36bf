[package]
name = "telemetry"
version = "0.1.0"
edition = "2021"
publish = false

[dependencies]
anyhow = "*"
elasticsearch = { version = "8.5.0-alpha.1", default-features = false, features = ["rustls-tls"] }
futures = "*"
napi = { version = "*", features = ["napi8", "tokio_rt"] }
napi-derive = "*"
serde = { version = "*", features = ["derive"] }
serde_json = "*"
