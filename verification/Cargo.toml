[package]
name = "wusd_core"
version = "0.1.0"
edition = "2021"
publish = false

[dependencies]
ed25519-dalek = "=1.0.1"
