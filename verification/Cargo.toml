[package]
name = "volunteer_match"
version = "0.1.0"
edition = "2021"
publish = false

[dependencies]
actix-web = "4"
aws-config = "1"
aws-sdk-sns = "1"
chrono = { version = "0.4", features = ["serde"] }
dotenv = "0.15"
env_logger = "0.11"
log = "0.4"
serde = { version = "1", features = ["derive"] }
serde_json = "1"
sqlx = { version = "0.8", default-features = false, features = ["runtime-tokio", "postgres", "chrono", "migrate"] }
thiserror = "1"
tokio = { version = "1", features = ["macros", "rt-multi-thread"] }
utoipa = { version = "4", features = ["chrono"] }
uuid = { version = "1", features = ["v4"] }
