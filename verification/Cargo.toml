[package]
name = "rt-evm-model"
version = "0.1.0"
edition = "2021"
publish = false

[dependencies]
ethereum = "=0.14.0"
ethereum-types = "=0.14.1"
evm = "=0.39.1"
rlp = "=0.5.2"
rlp-derive = "=0.1.0"
serde = { version = "=1.0.229", features = ["derive"] }
sha3 = "=0.10.9"
secp256k1 = { version = "=0.28.2", features = ["recovery"] }

[dev-dependencies]
libsecp256k1 = "=0.7.2"
