[package]
name = "hsts_site"
version = "0.1.0"
edition = "2021"
publish = false

[dependencies]
actix-files = "0.6"
actix-web = { version = "4", features = ["openssl"] }
actix-web-lab = "0.20"
env_logger = "0.11"
futures = "0.3"
openssl = "0.10"
