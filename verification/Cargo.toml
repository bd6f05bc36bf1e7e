[package]
name = "sdex_indexer"
version = "0.1.0"
edition = "2021"
publish = false

[dependencies]
serde_json = "1"
serde = { version = "1", features = ["derive"] }
chrono = { version = "0.4", default-features = false, features = ["clock", "std"] }
sqlx = { version = "0.8", default-features = false, features = ["postgres", "runtime-tokio"] }
axum = "0.7"
tokio = { version = "1", features = ["sync", "rt-multi-thread", "macros"] }
tracing = "0.1"
utoipa = "4"
