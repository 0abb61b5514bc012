[package]
name = "rc_validator"
version = "0.1.0"
edition = "2021"
publish = false

[dependencies]
anyhow = "=1.0.104"
async-trait = "0.1"
frost-ed25519 = "=2.2.0"
futures = "=0.3.34"
hex = "=0.4.3"
libp2p = { version = "=0.56.0", default-features = false, features = ["gossipsub"] }
log = "=0.4.34"
parity-scale-codec = "=3.7.5"
serde = { version = "=1.0.229", features = ["derive"] }
serde_json = "=1.0.154"
sp-core = "=43.0.0"
sp-crypto-hashing = "=0.1.0"
sp-keystore = "=0.49.0"
tokio = { version = "1", features = ["sync", "rt", "macros", "time"] }
tokio-stream = "0.1"
ureq = { version = "2", default-features = false, features = ["json"] }

[dev-dependencies]
rand = "=0.8.8"
