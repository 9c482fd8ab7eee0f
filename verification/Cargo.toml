[package]
name = "crypto_bridge"
version = "0.1.0"
edition = "2021"
publish = false

[dependencies]
concordium_base = "=10.0.0"
ed25519-dalek = "=2.2.0"
rand = "=0.8.8"
serde = "=1.0.229"
serde_json = "=1.0.151"
jni = "=0.19.0"

[dev-dependencies]
hex = "=0.4.3"
