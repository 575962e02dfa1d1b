[package]
name = "stableswap_pool"
version = "0.1.0"
edition = "2021"
publish = false

[dependencies]
cosmwasm-std = "1.5"
cw20 = "1.1"
cw-storage-plus = "1.2"
serde = { version = "1.0", features = ["derive"] }
