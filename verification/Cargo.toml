[package]
name = "rustyverse"
version = "0.1.0"
edition = "2021"
publish = false

[dependencies]
anyhow = "=1.0.104"
argon2 = "=0.5.3"
chrono = { version = "=0.4.45", default-features = false, features = ["std", "now", "serde"] }
clap = { version = "=3.2.25", default-features = false, features = ["std", "derive"] }
env_logger = { version = "=0.10.2", default-features = false }
futures = "=0.3.34"
jsonwebtoken = "=9.3.1"
juniper = { version = "=0.16.2", default-features = false, features = ["uuid"] }
juniper_rocket = "=0.9.0"
libipld = { version = "=0.11.0", default-features = false, features = ["dag-cbor", "dag-json"] }
log = "=0.4.35"
rand = "=0.8.8"
rocket = { version = "=0.5.2", default-features = false, features = ["json"] }
serde = { version = "=1.0.229", features = ["derive"] }
serde_dhall = { version = "0.12", default-features = false }
serde_json = "=1.0.154"
tokio = { version = "=1.54.1", features = ["macros", "rt-multi-thread"] }
url = { version = "=2.5.8", features = ["serde"] }
uuid = { version = "=1.29.1", features = ["v4", "serde"] }
