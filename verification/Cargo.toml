[package]
name = "pok_backend"
version = "0.1.0"
edition = "2021"
publish = false

[dependencies]
sha2 = "*"
candid = "*"
ic-stable-structures = "*"
serde = { version = "*", features = ["derive"] }
