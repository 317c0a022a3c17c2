[package]
name = "relay_core"
version = "0.1.0"
edition = "2021"
publish = false

[dependencies]
cosmwasm-std = "1"
cw2 = "1"
cw-storage-plus = "1"
router-wasm-bindings = "*"
schemars = "0.8"
serde = { version = "1", features = ["derive"] }
base64 = "0.13"

[dev-dependencies]
hex = "0.4"
