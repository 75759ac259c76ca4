[package]
name = "class_score"
version = "0.1.0"
edition = "2021"
publish = false

[dependencies]
cookie = "0.18"
tokio = { version = "1", features = ["full"] }
hyper = { version = "1", features = ["http1", "server"] }
hyper-util = { version = "0.1", features = ["tokio"] }
http-body-util = "0.1"
bytes = "1"
serde = { version = "1", features = ["derive"] }
serde_json = "1"
anyhow = "1"
argon2 = "0.5"
rand = "0.8"
ulid = "1"
chrono = "0.4"
dotenvy = "0.15"
once_cell = "1"
