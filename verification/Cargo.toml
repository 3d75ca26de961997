[package]
name = "reclaim-cosmwasm"
version = "0.1.0"
edition = "2021"
publish = false

[dependencies]
k256 = { version = "0.13", features = ["ecdsa"] }
sha3 = "0.10"
sha2 = "0.10"
hex = "0.4"
cosmwasm-std = "1.5"
cw2 = "1.1"
cw-storage-plus = "1.2"
serde = { version = "1", features = ["derive"] }
schemars = "0.8"
thiserror = "1"
