[package]
name = "message_intake"
version = "0.1.0"
edition = "2021"
publish = false

[dependencies]
actix-web = "4"
chrono = { version = "0.4", features = ["serde"] }
dotenv = "0.15"
env_logger = "0.11"
serde = { version = "1", features = ["derive"] }
sqlx = { version = "0.8", default-features = false, features = ["postgres", "runtime-tokio", "uuid", "chrono"] }
