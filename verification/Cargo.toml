[package]
name = "upload_sessions"
version = "0.1.0"
edition = "2021"
publish = false

[dependencies]
bytes = "1"
uuid = { version = "1", features = ["v4", "v7"] }
axum = { version = "0.6", features = ["ws"] }
tokio = { version = "1", features = ["full"] }
sqlx = { version = "0.7", default-features = false, features = ["runtime-tokio", "postgres", "uuid"] }
flume = "0.11"
eyre = "0.6"
color-eyre = "0.6"
tracing = "0.1"
tracing-subscriber = { version = "0.3", features = ["env-filter"] }
dotenvy = "0.15"
futures = "0.3"
futures-util = "0.3"
headers = "0.3"
moka = { version = "0.12", features = ["future"] }
pin-project = "1"
serde = { version = "1", features = ["derive"] }
