[package]
name = "pleme_health"
version = "0.1.0"
edition = "2021"
publish = false

[dependencies]
axum = "*"
chrono = "*"
redis = { version = "*", default-features = false, features = ["tokio-comp"] }
reqwest = { version = "*", default-features = false }
serde = { version = "*", features = ["derive"] }
sqlx = { version = "*", default-features = false, features = ["runtime-tokio", "postgres"] }
