[package]
name = "tsm"
version = "0.1.0"
edition = "2021"
publish = false

[dependencies]
anyhow = "=1.0.104"
async-session = "=3.0.0"
axum = "=0.7.9"
axum-extra = { version = "=0.9.6", features = ["typed-header"] }
azure_core = "=0.20.0"
azure_identity = "=0.20.0"
dotenvy = "=0.15.7"
http = "=1.5.0"
jsonwebtoken = "=9.3.1"
listenfd = "=1.0.2"
oauth2 = "=4.4.2"
readonly = "=0.2.14"
reqwest = "=0.12.4"
serde = { version = "=1.0.229", features = ["derive"] }
serde_json = "=1.0.154"
sqlx = { version = "=0.7.4", default-features = false, features = ["runtime-tokio", "postgres", "migrate"] }
tokio = { version = "=1.54.1", features = ["full"] }
tower-http = { version = "=0.5.2", features = ["cors"] }
tracing = "=0.1.44"
tracing-subscriber = "=0.3.23"
url = "=2.5.8"
validator = { version = "=0.18.1", features = ["derive"] }
