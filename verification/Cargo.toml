[package]
name = "todo_list"
version = "0.1.0"
edition = "2021"
publish = false

[dependencies]
askama = "0.12"
async-trait = "0.1"
axum = "0.7"
dotenv = "0.15"
sea-orm = { version = "0.12", features = ["sqlx-sqlite", "runtime-tokio-rustls", "macros"] }
sea-orm-migration = { version = "0.12", default-features = false, features = ["sqlx-sqlite", "runtime-tokio-rustls"] }
serde = { version = "1", features = ["derive"] }
tokio = { version = "1", features = ["full"] }
tower-http = { version = "0.5", features = ["fs"] }
tracing-subscriber = "0.3"
