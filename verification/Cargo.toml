[package]
name = "juno_scan"
version = "0.1.0"
edition = "2021"
publish = false

[dependencies]
anyhow = "=1.0.104"
base64 = "=0.13.1"
chrono = { version = "=0.4.45", features = ["serde"] }
cosmos-sdk-proto = { version = "=0.16.0", default-features = false, features = ["cosmwasm"] }
env_logger = "=0.11.11"
log = "=0.4.35"
once_cell = "=1.21.4"
phf = { version = "=0.14.0", features = ["macros"] }
reqwest = { version = "=0.12.28", default-features = false, features = ["json", "rustls-tls"] }
serde = { version = "=1.0.229", features = ["derive"] }
serde-aux = "=4.7.0"
serde_json = "=1.0.154"
serde_with = "=3.24.0"
tokio = { version = "=1.54.1", features = ["macros", "rt-multi-thread", "sync", "time"] }
