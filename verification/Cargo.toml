[package]
name = "bookshelf"
version = "0.1.0"
edition = "2021"
publish = false

[dependencies]
argon2 = { version = "=0.5.3", features = ["std"] }
uuid = { version = "=1.29.0", features = ["v7"] }
jiff = "=0.2.39"
rand = "=0.9.5"
serde = { version = "1", features = ["derive"] }
axum = "=0.8.9"
tokio = { version = "1", features = ["full"] }
toasty = { version = "=0.11.0", default-features = false, features = ["sqlite"] }
toml = "=0.8.23"
anyhow = "1"
tracing = "0.1"
tracing-subscriber = "0.3"
