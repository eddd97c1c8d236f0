[package]
name = "signed_message"
version = "0.1.0"
edition = "2021"
publish = false

[dependencies]
anyhow = "=1.0.104"
hex = "=0.4.3"
ic-types = "=0.5.0"
serde = { version = "=1.0.229", features = ["derive"] }
serde_cbor = "=0.11.2"
