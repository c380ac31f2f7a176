[package]
name = "eggspire"
version = "0.1.0"
edition = "2021"
publish = false

[dependencies]
chrono = "0.4"
clap = "2"
egg-mode = "0.13"
env_logger = "0.6"
futures = "0.1"
log = "0.4"
serde = "1"
serde_derive = "1"
tokio = "0.1"
toml = "0.5"
