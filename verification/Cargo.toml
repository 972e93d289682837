[package]
name = "genesis_json"
version = "0.1.0"
edition = "2021"
publish = false

[dependencies]
hex = "=0.4.3"
base64 = "=0.22.1"
serde_json = "=1.0.151"
