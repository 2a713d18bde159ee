[package]
name = "web_utils"
version = "0.1.0"
edition = "2021"
publish = false

[dependencies]
chrono = "0.4"
rand = "0.8"
mongodb = "2"
serde = { version = "1", features = ["derive"] }
serde_json = "1"
jsonwebtoken = "8"
tokio = { version = "1", features = ["fs", "io-util"] }
futures = "0.3"
actix-multipart = "0.6"
async-trait = "0.1"
