[package]
name = "chat4000_pyvodozemac"
version = "0.1.0"
edition = "2021"
publish = false

[dependencies]
http = "1"
matrix-sdk-crypto = "0.11"
matrix-sdk-sqlite = { version = "0.11", default-features = false, features = ["crypto-store", "bundled"] }
pyo3 = "0.23"
ruma = { version = "0.12", features = ["client-api-c"] }
serde = { version = "1", features = ["derive"] }
serde_json = "1"
thiserror = "2"
tokio = { version = "1", features = ["rt-multi-thread"] }
