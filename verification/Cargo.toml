[package]
name = "decaf377-rdsa"
version = "0.11.0"
edition = "2021"
publish = false

[dependencies]
blake2b_simd = "1"
decaf377 = "0.10"
frost-core = "0.6"
hex = "0.4"
rand_core = "0.6"
serde = { version = "1", features = ["derive"] }
