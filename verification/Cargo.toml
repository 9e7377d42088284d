[package]
name = "samrelay"
version = "0.1.0"
edition = "2021"
publish = false

[dependencies]
anyhow = "=1.0.104"
clap = "=4.6.7"
classgroup = "=0.1.0"
env_logger = "=0.11.11"
i2p = "=0.0.1"
log = "=0.4.34"
rand = "=0.10.3"
serde = { version = "=1.0.229", features = ["derive"] }
serde_yaml = "=0.9.34"
tokio = { version = "=1.53.2", features = ["full"] }
vdf = "=0.1.0"
