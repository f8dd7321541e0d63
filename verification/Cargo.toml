[package]
name = "lumen"
version = "0.1.0"
edition = "2021"
publish = false

[dependencies]
aes-gcm-siv = "0.11"
base64 = "0.21"
sha3 = "0.10"
uuid = { version = "1", features = ["v4"] }
argon2 = "0.5"
actix-web = "4"
tokio = { version = "1", features = ["macros", "rt-multi-thread", "fs", "io-util"] }
sqlx = { version = "0.7", default-features = false, features = ["runtime-tokio", "sqlite", "chrono", "migrate", "macros"] }
serde = { version = "1", features = ["derive"] }
chrono = { version = "0.4", features = ["serde"] }
anyhow = "1"
dotenvy = "0.15"
log = "0.4"
pretty_env_logger = "0.5"
