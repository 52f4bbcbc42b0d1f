[package]
name = "kalisi_demo"
version = "0.1.0"
edition = "2021"
publish = false

[dependencies]
actix-files = "*"
actix-web = { version = "*", features = ["openssl"] }
env_logger = "*"
openssl = "*"
redis = "*"
reqwest = "*"
