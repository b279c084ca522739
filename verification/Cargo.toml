[package]
name = "vectoriser"
version = "0.1.0"
edition = "2021"
publish = false

[dependencies]
anyhow = "1"
axum = { version = "0.8", default-features = false, features = ["tokio", "http1"] }
clap = { version = "4", features = ["derive"] }
dotenvy = "0.15"
envy = "0.4"
fastembed = { version = "7", default-features = false }
lapin = { version = "4", default-features = false }
qdrant-client = { version = "1", default-features = false, features = ["serde"] }
serde = { version = "1", features = ["derive"] }
serde_json = "1"
sqlx = { version = "0.8", default-features = false, features = ["runtime-tokio", "postgres", "json", "uuid"] }
tokio = { version = "1", features = ["full"] }
tokio-retry = "0.3"
tokio-stream = "0.1"
tracing = "0.1"
tracing-subscriber = { version = "0.3", features = ["env-filter"] }
uuid = { version = "1", features = ["v4", "serde"] }
