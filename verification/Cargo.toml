[package]
name = "sotf_daemon"
version = "0.1.0"
edition = "2021"
publish = false

[dependencies]
cpal = "0.17"
ctrlc = "3"
env_logger = "0.11"
libc = "0.2"
log = "0.4"
parking_lot = "0.12"
serde = { version = "1", features = ["derive"] }
serde_json = "1"
