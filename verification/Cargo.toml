[package]
name = "saya_core"
version = "0.1.0"
edition = "2021"
publish = false

[dependencies]
anyhow = "=1.0.104"
futures-util = "=0.3.34"
hex = "=0.4.3"
log = "=0.4.35"
reqwest = { version = "=0.12.28", default-features = false, features = ["json", "multipart", "rustls-tls"] }
serde = { version = "=1.0.229", features = ["derive"] }
serde_json = "=1.0.154"
sqlx = { version = "=0.8.6", default-features = false, features = ["runtime-tokio", "sqlite"] }
starknet = "0.17"
starknet-types-core = "0.2"
thiserror = "2"
tokio = { version = "=1.54.1", features = ["full"] }
tokio-util = "=0.7.20"
url = "=2.5.8"
