[package]
name = "deck8_hub"
version = "0.1.0"
edition = "2021"
publish = false

[dependencies]
ringbuf = "0.4"
rodio = "0.20"
hound = "3.5"
hidapi = "2"
dirs = "5"
serde = { version = "1", features = ["derive"] }
serde_json = "1"
anyhow = "1"
log = "0.4"
env_logger = "0.11"
enigo = "0.2"
