[package]
name = "player_server"
version = "0.1.0"
edition = "2021"
publish = false

[dependencies]
uuid = { version = "=1.27.0", features = ["v4", "serde"] }
axum = "=0.7.9"
tokio = { version = "1", features = ["full"] }
tower-http = { version = "=0.5.2", features = ["fs", "trace", "compression-full", "decompression-full", "timeout"] }
serde = { version = "1", features = ["derive"] }
serde_json = "1"
sqlx = { version = "=0.8.6", default-features = false, features = ["runtime-tokio", "postgres", "uuid"] }
meilisearch-sdk = "=0.27.1"
tracing = "0.1"
tracing-subscriber = { version = "0.3", features = ["fmt", "env-filter"] }
