[package]
name = "spark_chain_tge"
version = "0.1.0"
edition = "2021"
publish = false

[dependencies]
ed25519-dalek = "1"

[dev-dependencies]
rand = "0.7"
