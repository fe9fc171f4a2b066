[package]
name = "wraps"
version = "0.1.0"
edition = "2021"
publish = false

[dependencies]
ark-bn254 = "0.6.0"
ark-crypto-primitives = { version = "0.6.0", features = ["crh", "sponge"] }
ark-ec = "0.6.0"
ark-ed-on-bn254 = "0.6.0"
ark-ff = "0.6.0"
ark-serialize = "0.6.0"
ark-std = "0.6.0"
digest = "0.10"
rand_chacha = "0.3"
