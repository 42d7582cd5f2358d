[package]
name = "forge_registry"
version = "0.1.0"
edition = "2021"
publish = false

[dependencies]
hex = "0.4"
jsonwebtoken = "=9.3.1"
rand = "=0.8.8"
semver = "=1.0.28"
serde = { version = "=1.0.229", features = ["derive"] }
serde_json = "=1.0.151"
sha2 = "0.10"
uuid = "=1.27.0"
