[package]
name = "helios_operator"
version = "0.1.0"
edition = "2021"
publish = false

[dependencies]
alloy-primitives = "=1.7.3"
hex = "=0.4.3"
anyhow = "=1.0.104"
serde_cbor = "=0.11.2"
bincode = "=1.3.3"
log = "=0.4.34"
env_logger = "=0.11.11"
dotenv = "=0.15.0"
clap = { version = "=4.6.7", features = ["derive"] }
tokio = { version = "=1.53.2", features = ["rt-multi-thread", "macros", "time"] }
bonsai-sdk = "*"
serde_json = "*"
reqwest = { version = "=0.12.28", default-features = false, features = ["json", "rustls-tls"] }
