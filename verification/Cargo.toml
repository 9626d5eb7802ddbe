[package]
name = "todo_api"
version = "0.1.0"
edition = "2021"
publish = false

[dependencies]
actix-files = "0.6"
actix-multipart = "0.6"
actix-web = "4"
chrono = { version = "0.4", features = ["serde"] }
derive_more = "0.99"
dotenv = "0.15"
env_logger = "0.10"
futures-util = "0.3"
jsonwebtoken = "9"
mime_guess = "2"
serde = { version = "1", features = ["derive"] }
serde_json = "1"
sqlx = { version = "0.7", default-features = false, features = ["runtime-tokio-rustls", "postgres", "uuid", "chrono"] }
uuid = { version = "1", features = ["v4", "serde"] }
