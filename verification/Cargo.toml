[package]
name = "ideadog"
version = "0.1.0"
edition = "2021"
publish = false

[dependencies]
base64 = "0.13"
rand = "0.8"
chrono = "0.4"
serde = { version = "1", features = ["derive"] }
serde_json = "1"
actix-web = "4"
futures = "0.3"
r2d2 = "0.8"
arangors = "*"
dotenv = "0.15"
env_logger = "*"
reqwest = { version = "*", default-features = false, features = ["blocking"] }
