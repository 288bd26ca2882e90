[package]
name = "zephyr"
version = "0.1.0"
edition = "2021"
publish = false

[dependencies]
chrono = "=0.4.45"
uuid = { version = "=1.29.0", features = ["v4"] }
quick-xml = "=0.37.5"
base64 = "=0.22.1"
argon2 = "=0.5.3"
password-hash = { version = "=0.5.0", features = ["getrandom"] }
rand = "=0.9.5"
hmac = "=0.12.1"
sha2 = "=0.10.9"
jwt = "=0.16.0"
actix-web = "=4.18.1"
hyper = "=1.12.0"
futures-util = "=0.3.34"
sea-orm = { version = "=1.1.20", features = ["sqlx-postgres", "runtime-tokio"] }
serde = { version = "=1.0.229", features = ["derive"] }
env_logger = "=0.11.11"
dotenvy = "=0.15.7"
