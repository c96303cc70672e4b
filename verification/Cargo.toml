[package]
name = "istio_gateway"
version = "0.1.0"
edition = "2021"
publish = false

[dependencies]
serde = { version = "=1.0.229", features = ["derive"] }
serde_json = "=1.0.151"
thiserror = "=2.0.21"
kubewarden-policy-sdk = { version = "=0.17.3", default-features = false }
