[package]
name = "axia_kit"
version = "0.1.0"
edition = "2021"
publish = false

[dependencies]
parity-scale-codec = { version = "2.3", default-features = false, features = ["std"] }
async-trait = "0.1"
num-traits = "0.2"
