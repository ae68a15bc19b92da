[package]
name = "speicherwald"
version = "0.1.0"
edition = "2021"
publish = false

[dependencies]
globset = "0.4"
uuid = { version = "1", features = ["v4", "serde"] }
urlencoding = "2"
num_cpus = "1"
anyhow = "1"
serde = { version = "1", features = ["derive"] }
serde_json = "1"
axum = "0.7"
tokio = { version = "1", features = ["full"] }
tokio-util = "0.7"
tokio-stream = { version = "0.1", features = ["sync"] }
futures = "0.3"
sqlx = { version = "0.7", default-features = false, features = ["runtime-tokio", "sqlite", "macros"] }
tower-http = { version = "0.5", features = ["fs", "cors", "trace", "compression-full"] }
tracing = "0.1"
tracing-subscriber = { version = "0.3", features = ["env-filter"] }
chrono = "0.4"
walkdir = "2"
dotenvy = "0.15"
config = { version = "0.14", default-features = false, features = ["toml"] }
