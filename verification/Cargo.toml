[package]
name = "ziglet_okamoto"
version = "0.1.0"
edition = "2021"
publish = false

[dependencies]
bls12_381 = "0.8"
ff = "0.13"
rand_core = { version = "0.6", features = ["getrandom"] }
