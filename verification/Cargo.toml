[package]
name = "lcr_dilithium"
version = "0.1.0"
edition = "2021"
publish = false

[dependencies]
ml-dsa = "*"
zeroize = "*"
rand_core = { version = "*", features = ["getrandom"] }
getrandom = "*"
