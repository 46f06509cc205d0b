[package]
name = "nftx"
version = "0.1.0"
edition = "2021"
publish = false

[dependencies]
cosmwasm-std = "1.5"
cosmwasm-schema = "1.5"
cw-storage-plus = "1.2"
cw2 = "1.1"
cw0 = "0.10"
cw20 = "1.1"
cw721 = "0.18"
schemars = "0.8"
serde = { version = "1.0", features = ["derive"] }
thiserror = "1.0"
