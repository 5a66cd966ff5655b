[package]
name = "user_auth"
version = "0.1.0"
edition = "2021"
publish = false

[dependencies]
jsonwebtoken = "9"
regex = "1"
uuid = { version = "1", features = ["v4"] }
serde = { version = "1", features = ["derive"] }
serde_json = "1"
redis = { version = "*", default-features = false }
actix-web = { version = "4", default-features = false, features = ["macros"] }
sqlx = { version = "0.7", default-features = false, features = ["postgres", "runtime-tokio"] }
dotenv = "0.15"
env_logger = "*"
