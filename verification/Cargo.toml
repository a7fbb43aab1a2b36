[package]
name = "ecu_emulator"
version = "0.1.0"
edition = "2021"
publish = false

[dependencies]
anyhow = "1"
config = { version = "0.15", default-features = false, features = ["toml"] }
num-bigint = "0.4"
num-traits = "0.2"
serde = { version = "1", features = ["derive"] }
socketcan = { version = "3", default-features = false }
thiserror = "1"
toml = "0.8"
