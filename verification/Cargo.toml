[package]
name = "blog_backend"
version = "0.1.0"
edition = "2021"
publish = false

[dependencies]
actix-cors = "0.7"
actix-files = "0.6"
actix-multipart = "0.6"
actix-web = { version = "4", default-features = false, features = ["macros"] }
dotenv = "0.15"
env_logger = "0.10"
futures-util = "0.3"
log = "0.4"
sanitize-filename = "0.5"
serde = { version = "1", features = ["derive"] }
sqlx = { version = "0.7", default-features = false, features = ["runtime-tokio", "sqlite", "migrate"] }
tokio = { version = "1", features = ["fs", "io-util"] }
