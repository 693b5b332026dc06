[package]
name = "coreum_nft"
version = "0.1.0"
edition = "2021"
publish = false

[dependencies]
cosmwasm-std = "1"
cw721 = "0.17"
cw721-base = "0.17"
serde = { version = "1", features = ["derive"] }
serde_json = "1"
