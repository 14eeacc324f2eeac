[package]
name = "minibooru"
version = "0.1.0"
edition = "2021"
publish = false

[dependencies]
anyhow = "1"
argon2 = { version = "=0.5.3", features = ["std"] }
axum = { version = "0.7", features = ["multipart"] }
axum-extra = { version = "0.9", features = ["cookie"] }
ffmpeg-next = "7"
hex = "=0.4.3"
infer = "=0.15.0"
log = "0.4"
md-5 = "=0.10.6"
pretty_env_logger = "0.5"
regex = "=1.13.1"
serde = { version = "1", features = ["derive"] }
serde_regex = "1"
sqlx = { version = "0.7", default-features = false, features = ["postgres", "runtime-tokio", "uuid", "time"] }
time = "0.3"
timeago = "0.4"
tokio = { version = "1", features = ["full"] }
toml = "0.8"
tower-http = { version = "0.5", features = ["fs"] }
uuid = "=1.29.0"
