[package]
name = "bls12_381_sign"
version = "0.1.0"
edition = "2021"
publish = false

[dependencies]
dusk-bls12_381 = "=0.13.0"
dusk-bytes = "=0.1.7"
derive-hex = "=0.1.2"
blake2 = "=0.10.6"
rand_core = "=0.6.4"
rand = "=0.8.8"
libc = "=0.2.190"
