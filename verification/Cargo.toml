[package]
name = "tbge"
version = "0.1.0"
edition = "2021"
publish = false

[dependencies]
rand = "=0.8.8"
shuffle = { version = "=0.2.1", default-features = false, features = ["rand-0_8", "bitvec-1_0"] }
