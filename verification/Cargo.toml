[package]
name = "metta_bytecode"
version = "0.1.0"
edition = "2021"
publish = false

[dependencies]
lru = "*"
parking_lot = "*"
xxhash-rust = { version = "*", features = ["xxh3"] }
smallvec = "*"
