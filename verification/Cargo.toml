[package]
name = "blob_storage"
version = "0.1.0"
edition = "2021"
publish = false

[dependencies]
safe-nd = "=0.11.7"
xor_name = "=1.3.0"
self_encryption = "=0.36.1"
async-trait = "=0.1.92"
bincode = "=1.3.3"

[dev-dependencies]
ed25519-dalek = "=1.0.1"
threshold_crypto = "=0.4.0"
