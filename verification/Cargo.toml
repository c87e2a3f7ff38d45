[package]
name = "mangayomi_server"
version = "0.1.3"
edition = "2021"
publish = false

[dependencies]
semver = "1"
argon2 = "0.5"
password-hash = { version = "0.5", features = ["getrandom"] }
validator = "*"
serde = { version = "1", features = ["derive"] }
serde_json = "1"
mongodb = "3"
tokio = { version = "1", features = ["full"] }
futures = "0.3"
log = "0.4"
env_logger = "*"
dotenvy = "*"
actix-web = "4"
actix-files = "*"
actix-http = "3"
actix-identity = "*"
actix-session = { version = "*", features = ["cookie-session"] }
actix-governor = "*"
tera = { version = "1", default-features = false }
walkdir = "2"
