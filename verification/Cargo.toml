[package]
name = "passkey_enclave"
version = "0.1.0"
edition = "2021"
publish = false

[dependencies]
aes-gcm = "0.10"
hkdf = "0.12"
sha2 = "0.10"
p256 = "0.13"
rand_core = { version = "0.6", features = ["getrandom"] }
