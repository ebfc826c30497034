[package]
name = "batch_multiply"
version = "0.1.0"
edition = "2021"
publish = false

[dependencies]
bellman = "=0.14.0"
bls12_381 = "0.8"
ff = "0.13"
group = "0.13"
pairing = "0.23"
rand = "0.8"
