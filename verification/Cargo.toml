[package]
name = "ovos_config"
version = "0.1.0"
edition = "2021"
publish = false

[dependencies]
serde_json = "1"
serde_yaml = "0.9"
regex = "1"
parking_lot = "0.12"
log = "0.4"
env_logger = "*"
