[package]
name = "stellar_token_contract"
version = "0.1.0"
edition = "2021"
publish = false

[dependencies]
ed25519-dalek = "1"
sha2 = "0.9"

[dev-dependencies]
rand = "0.7"
