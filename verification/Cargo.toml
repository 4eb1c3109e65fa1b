[package]
name = "arsh"
version = "0.1.0"
edition = "2021"
publish = false

[dependencies]
anyhow = "1"
conch-parser = "0.1"
nix = { version = "*", features = ["process"] }
