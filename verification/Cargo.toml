[package]
name = "conductor"
version = "0.1.0"
edition = "2021"
publish = false

[dependencies]
cfg-if = "1"
chrono = "0.4"
clap = { version = "4", features = ["derive"] }
directories = "*"
env_logger = "0.11"
futures-util = "0.3"
log = "0.4"
rand = "0.9"
reqwest = { version = "0.12", default-features = false }
serde = { version = "1", features = ["derive"] }
serde_json = "1"
thiserror = "*"
tokio = { version = "1", features = ["macros", "net", "process", "rt-multi-thread", "signal", "sync", "time"] }
tokio-tungstenite = "*"
toml = "*"

[dev-dependencies]
regex = "1"
