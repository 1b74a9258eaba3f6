[package]
name = "darkfid_core"
version = "0.1.0"
edition = "2021"
publish = false

[dependencies]
blake3 = "1"
bs58 = "*"
serde_json = "1"
