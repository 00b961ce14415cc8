[package]
name = "kzg_asvc"
version = "0.1.0"
edition = "2021"
publish = false

[dependencies]
ark-ff = "0.4"
ark-ec = "0.4"
ark-std = "0.4"
ark-serialize = "0.4"
ark-bls12-381 = "0.4"
rand = "0.8"
