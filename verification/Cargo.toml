[package]
name = "onboarding"
version = "0.1.0"
edition = "2021"
publish = false

[dependencies]
rand = "0.9"
sha2 = "0.10"
base64 = "*"
actix-web = "4"
actix-cors = "*"
actix-files = "*"
actix-identity = "*"
actix-session = { version = "*", features = ["cookie-session"] }
bb8 = "*"
bb8-tiberius = "*"
tiberius = "*"
tokio = { version = "1", features = ["full"] }
tokio-stream = "*"
chrono = "0.4"
serde = { version = "1", features = ["derive"] }
serde_json = "1"
jsonwebtoken = "*"
bigdecimal = { version = "*", features = ["serde"] }
dotenvy = "*"
env_logger = "*"
log = "*"
