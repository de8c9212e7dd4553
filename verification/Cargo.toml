[package]
name = "bpfctl"
version = "0.1.0"
edition = "2021"
publish = false

[dependencies]
anyhow = "1"
base64 = "0.21"
clap = { version = "4", features = ["derive"] }
comfy-table = "7"
env_logger = "0.10"
hex = "0.4"
itertools = "0.11"
log = "0.4"
prost = "0.12"
serde = { version = "1", features = ["derive"] }
tokio = { version = "1", features = ["full"] }
toml = "0.8"
tonic = { version = "0.10", features = ["tls"] }
tower = "0.4"
