[package]
name = "auth_core"
version = "0.1.0"
edition = "2021"
publish = false

[dependencies]
actix-web = "=3.3.3"
argonautica = "=0.2.0"
config = "=0.10.1"
deadpool = "=0.5.2"
deadpool-postgres = "=0.5.6"
env_logger = "=0.7.1"
futures = { version = "=0.3.34", features = ["compat"] }
log = "=0.4.34"
regex = "=1.13.1"
serde = { version = "=1.0.229", features = ["derive"] }
tokio-postgres = "=0.5.5"
uuid = { version = "=0.8.2", features = ["v4"] }
