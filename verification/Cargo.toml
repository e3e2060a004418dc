[package]
name = "latke"
version = "0.1.0"
edition = "2021"
publish = false

[dependencies]
serde_json = "=1.0.151"
reqwest = { version = "=0.13.5", default-features = false, features = ["form"] }
tokio = { version = "=1.53.2", features = ["rt-multi-thread", "time", "macros"] }
keyring = "=4.2.0"
log = "=0.4.34"
env_logger = "=0.11.11"
anyhow = "=1.0.104"
