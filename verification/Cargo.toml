[package]
name = "axum_server_dual_protocol"
version = "0.1.0"
edition = "2021"
publish = false

[dependencies]
axum-server = { version = "0.5", features = ["tls-rustls"] }
bytes = "1"
http = "0.2"
hyper = { version = "0.14", features = ["full"] }
pin-project = "1"
pin-project-lite = "0.2"
tokio = { version = "1", features = ["full"] }
tokio-rustls = "0.24"
tokio-util = "0.7"
tower-layer = "0.3"
tower-service = "0.3"
