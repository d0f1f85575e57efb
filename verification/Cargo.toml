[package]
name = "microservice_rust_workshop"
version = "0.1.0"
edition = "2021"
publish = false

[dependencies]
axum = { version = "0.6", features = ["headers"] }
hyper = { version = "0.14", features = ["full"] }
image = "0.24"
serde = { version = "1", features = ["derive"] }
tokio = { version = "1", features = ["full"] }
