[package]
name = "ferrishare"
version = "0.1.0"
edition = "2021"
publish = false

[dependencies]
anyhow = "1"
argon2 = "0.5"
axum = { version = "0.7", features = ["multipart"] }
axum-extra = { version = "0.9", features = ["cookie"] }
base64 = "0.22"
chrono = "0.4"
clap = { version = "4", features = ["derive"] }
cookie = "0.18"
hex = "0.4"
inquire = "0.7"
itertools = "0.13"
minify-html = "0.15"
rand = "0.8"
serde = { version = "1", features = ["derive"] }
sha2 = "0.10"
sqlx = { version = "0.8", default-features = false, features = ["runtime-tokio", "sqlite", "macros", "migrate"] }
tera = "1"
tokio = { version = "1", features = ["full"] }
tokio-util = { version = "0.7", features = ["io"] }
toml = "0.8"
tower = "0.5"
tower-http = { version = "0.6", features = ["compression-full", "fs", "timeout"] }
tracing = "0.1"
tracing-subscriber = "0.3"
