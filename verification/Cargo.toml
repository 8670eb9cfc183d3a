[package]
name = "actix_demo"
version = "0.1.0"
edition = "2021"
publish = false

[dependencies]
rand = "=0.7.3"
serde_json = "=1.0.154"
validator = "=0.10.1"
validator_derive = "=0.10.1"
regex = "=1.13.1"
json = "=0.12.4"
lazy_static = "=1.5.1"
actix-web = "=2.0.0"
actix-rt = "=1.1.1"
actix-files = "=0.2.2"
actix-session = "=0.3.0"
actix-service = "=1.0.6"
actix-http = "=1.0.1"
actix = "=0.9.0"
actix-redis = "=0.8.2"
redis-async = "=0.6.2"
futures = "=0.3.34"
bytes = "=0.5.6"
diesel = { version = "=1.4.8", features = ["postgres", "r2d2"] }
r2d2 = "=0.8.10"
env_logger = "=0.7.1"
uuid = { version = "=0.8.2", features = ["v4"] }
serde = { version = "=1.0.229", features = ["derive"] }
serde_derive = "=1.0.229"
derive_more = "=0.99.20"
chrono = "=0.4.19"
