[package]
name = "klovy-chat-server"
version = "0.1.0"
edition = "2021"
publish = false

[dependencies]
actix-multipart = "*"
actix-web = "4"
actix-web-lab = "*"
axum = { version = "0.8", features = ["ws"] }
chrono = "0.4"
dotenvy = "0.15"
env_logger = "0.11"
futures-util = "0.3"
hex = "0.4"
jsonwebtoken = "9"
log = "0.4"
mongodb = "3"
once_cell = "1"
rand = "0.8"
serde = { version = "1", features = ["derive"] }
serde_json = "1"
tokio = { version = "1", features = ["full"] }
uuid = { version = "1", features = ["v4"] }
