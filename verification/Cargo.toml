[package]
name = "nohead_rs"
version = "0.1.0"
edition = "2021"
publish = false

[dependencies]
validator = "*"
rand = "*"
argon2 = "*"
tokio = { version = "*", features = ["rt-multi-thread", "macros", "signal", "sync", "time"] }
axum = "*"
serde = { version = "*", features = ["derive"] }
serde_json = "*"
