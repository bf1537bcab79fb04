[package]
name = "axio_demo"
version = "0.1.0"
edition = "2021"
publish = false

[dependencies]
anyhow = "=1.0.104"
axum = "=0.8.9"
flate2 = "=1.1.10"
redis = { version = "=1.7.1", features = ["tokio-comp"] }
serde = { version = "=1.0.229", features = ["derive"] }
sqlx = { version = "=0.9.0", features = ["runtime-tokio", "postgres"] }
tokio = { version = "=1.53.2", features = ["full"] }
validator = { version = "=0.21.0", features = ["derive"] }
