[package]
name = "rhiaqey_gateways"
version = "0.1.0"
edition = "2021"
publish = false

[dependencies]
serde_json = "1"
serde = { version = "1", features = ["derive"] }
axum = { version = "0.8", features = ["ws"] }
axum-extra = { version = "0.10", features = ["typed-header"] }
axum-client-ip = "0.7"
tokio = { version = "1", features = ["full"] }
futures = "0.3"
hyper = "1"
log = "0.4"
lazy_static = "1"
prometheus = { version = "0.13", default-features = false }
