[package]
name = "simple_mining_pool"
version = "0.1.0"
edition = "2021"
publish = false

[dependencies]
sha2 = "*"
ed25519-dalek = "*"
frank_jwt = "*"
serde = { version = "*", features = ["derive"] }
serde_json = "*"
