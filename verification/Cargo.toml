[package]
name = "veloren"
version = "0.1.0"
edition = "2021"
publish = false

[dependencies]
axum = "0.6"
chrono = "0.4"
hyper = "0.14"
lazy_static = "1"
once_cell = "1"
serde = { version = "1", features = ["derive"] }
tokio = { version = "1", features = ["sync"] }
tracing = "0.1"
vek = { version = "0.17", features = ["serde"] }
