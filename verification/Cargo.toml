[package]
name = "sphinx"
version = "0.1.0"
edition = "2021"
publish = false

[dependencies]
curve25519-dalek = "4"
hkdf = "0.12"
hmac = "0.12"
sha2 = "0.10"
aes = "0.8"
ctr = "0.9"
rand = "0.8"
rand_distr = "0.4"
