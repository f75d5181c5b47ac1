[package]
name = "osphor"
version = "0.1.0"
edition = "2021"
publish = false

[dependencies]
anyhow = "*"
argon2 = "*"
axum = "*"
axum-extra = { version = "*", features = ["typed-header"] }
chrono = "=0.4.45"
clap = { version = "*", features = ["derive"] }
jsonwebtoken = { version = "=11.1.0", features = ["rust_crypto"] }
mlua = { version = "=0.12.2", features = ["lua54", "vendored"] }
redb = "=4.3.0"
serde = { version = "*", features = ["derive"] }
serde_json = "=1.0.151"
skillratings = { version = "=0.29.2", features = ["serde"] }
tokio = { version = "*", features = ["full"] }
