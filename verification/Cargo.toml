[package]
name = "r2wraith"
version = "0.1.0"
edition = "2021"
publish = false

[dependencies]
aes-gcm = "=0.10.3"
bollard = "0.13"
chrono = "=0.4.45"
cron_clock = "=0.8.0"
futures = "0.3"
linked-hash-map = { version = "=0.5.6", features = ["serde_impl"] }
log = "0.4"
rand = "=0.8.8"
serde = { version = "1", features = ["derive"] }
serde_json = "1"
simple_logger = "4"
strip-ansi-escapes = "0.1"
tokio = { version = "1", features = ["full"] }
toml = "0.5"
