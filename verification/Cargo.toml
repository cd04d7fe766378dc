[package]
name = "scoreboard"
version = "0.1.0"
edition = "2021"
publish = false

[dependencies]
chrono = { version = "0.4", default-features = false, features = ["clock", "serde", "std"] }
serde = { version = "1", features = ["derive"] }
serde_json = "1"
tokio = { version = "1", features = ["macros", "rt-multi-thread", "sync", "net"] }
axum = { version = "0.8", features = ["ws", "macros"] }
futures-util = { version = "0.3", features = ["sink"] }
tracing = "0.1"
anyhow = "1"
dotenv = "0.15"
validator = { version = "0.20", features = ["derive"] }
sea-orm = { version = "1", default-features = false, features = ["macros", "with-json", "with-chrono", "sqlx-postgres", "runtime-tokio-rustls"] }
