[package]
name = "music_ownable"
version = "0.1.0"
edition = "2021"
publish = false

[dependencies]
ownable-std = "=0.1.0"
bs58 = "=0.4.0"
secp256k1 = "=0.26.0"
cosmwasm-std = "=1.5.11"
cw2 = "=1.1.2"
cw-storage-plus = "=1.2.0"
serde = "=1.0.229"
schemars = "=0.8.22"
