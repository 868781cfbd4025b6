[package]
name = "chisel"
version = "0.1.0"
edition = "2021"
publish = false

[dependencies]
parity-wasm = "0.45"
clap = "2"
serde_yaml = "0.9"

[dev-dependencies]
rustc-hex = "2"
