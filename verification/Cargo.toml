[package]
name = "jetbrains_web_app"
version = "0.1.0"
edition = "2021"
publish = false

[dependencies]
image = "*"
uuid = { version = "*", features = ["v4"] }
validator = "*"
serde = { version = "*", features = ["derive"] }
axum = { version = "*", features = ["multipart"] }
tokio = { version = "*", features = ["macros", "rt-multi-thread", "net"] }
reqwest = { version = "*", default-features = false }
sqlx = { version = "*", default-features = false, features = ["runtime-tokio-rustls", "postgres", "chrono", "uuid"] }
chrono = { version = "*", default-features = false, features = ["std", "serde"] }
config = { version = "*", default-features = false, features = ["yaml"] }
serde-aux = { version = "*", default-features = false }
