[package]
name = "cryptdoor"
version = "0.1.0"
edition = "2021"
publish = false

[dependencies]
serde = { version = "1", features = ["derive"] }
serde_json = "1"
serde_yaml = "0.9"
anyhow = "1"
interprocess = "2"
dirs = "5"
once_cell = "1"
parking_lot = "0.12"
log = "0.4"
env_logger = "0.11"
tokio = { version = "1", features = ["rt-multi-thread", "time", "net", "process", "macros"] }
reqwest = { version = "0.12", default-features = false }
