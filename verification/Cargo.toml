[package]
name = "lending_core"
version = "0.1.0"
edition = "2021"
publish = false

[dependencies]
cosmwasm-std = { version = "=1.5.11", features = ["stargate"] }
cw-storage-plus = "=1.2.0"
mars-owner = "=1.2.0"
serde = { version = "=1.0.229", features = ["derive"] }
