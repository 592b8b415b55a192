[package]
name = "task_manager_sql"
version = "0.1.0"
edition = "2021"
publish = false

[dependencies]
axum = "0.8"
dotenv = "0.15"
serde = { version = "1", features = ["derive"] }
serde_json = "1"
sqlx = { version = "0.8", features = ["runtime-tokio", "sqlite"] }
tokio = { version = "1", features = ["full"] }
