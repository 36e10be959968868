[package]
name = "indexed_bitfield"
version = "0.1.0"
edition = "2021"
publish = false

[dependencies]
bitvec = "1.0.1"
ed25519-dalek = "1.0.1"
parity-scale-codec = { version = "3", features = ["derive", "bit-vec"] }

[dev-dependencies]
rand = "0.7"
rand_chacha = "0.2"
