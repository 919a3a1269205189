[package]
name = "m2psu"
version = "0.1.0"
edition = "2021"
publish = false

[dependencies]
curve25519-dalek = { version = "=4.1.3", features = ["rand_core", "serde"] }
fiat-crypto = "=0.2.9"
rand = "=0.8.8"
rand_chacha = "=0.3.1"
blake2 = "=0.10.6"
aes = "=0.8.4"
cipher = "=0.4.4"
serde = { version = "=1.0.229", features = ["derive"] }
bincode = "=1.3.3"
socket2 = "=0.5.10"
