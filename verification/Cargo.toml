[package]
name = "serverless_proxy"
version = "0.1.0"
edition = "2021"
publish = false

[dependencies]
anyhow = "1"
axum = "*"
http = "*"
lambda_http = "*"
reqwest = { version = "*", default-features = false, features = ["rustls-tls"] }
spin-sdk = "*"
tokio = { version = "1", features = ["full"] }
worker = "*"
