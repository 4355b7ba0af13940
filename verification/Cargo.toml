[package]
name = "quader_engine"
version = "0.1.0"
edition = "2021"
publish = false

[dependencies]
rand = "0.8"
rand_chacha = "0.3"
serde = { version = "1", features = ["derive"] }
tokio = { version = "1", features = ["sync", "rt", "macros"] }
uuid = { version = "1", features = ["v4"] }
log = "0.4"
tungstenite = "0.21"
url = "2"
macroquad = { version = "0.4", default-features = false }
anyhow = "1"
dotenvy = "0.15"
env_logger = "0.11"
