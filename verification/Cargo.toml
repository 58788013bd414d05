[package]
name = "p2p_address"
version = "0.1.0"
edition = "2021"
publish = false

[dependencies]
serde = "1"
serde_json = "1"
sha2 = "0.10"
thiserror = "1"
