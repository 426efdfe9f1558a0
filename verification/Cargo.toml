[package]
name = "miden_oracle"
version = "0.1.0"
edition = "2021"
publish = false

[dependencies]
miden-crypto = "=0.21.4"
rand = "=0.9.5"
rand_chacha = "=0.9.0"
