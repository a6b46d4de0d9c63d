[package]
name = "routerpay"
version = "1.0.0"
edition = "2021"
publish = false

[dependencies]
cosmwasm-std = "=1.5.11"
cw2 = "=1.1.2"
cw-storage-plus = "=1.2.0"
router-wasm-bindings = { version = "=0.4.0", features = ["ethabi"] }
schemars = "=0.8.22"
serde = { version = "=1.0.229", default-features = false, features = ["derive"] }
