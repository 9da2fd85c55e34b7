[package]
name = "auth_endpoint"
version = "0.1.0"
edition = "2021"
publish = false

[dependencies]
url = "2"
serde = { version = "1", features = ["derive"] }
actix-web = { version = "4", default-features = false, features = ["macros"] }
actix-cors = "0.7"
actix-web-httpauth = "0.8"
env_logger = "0.11"
