[package]
name = "wasmarch"
version = "0.1.0"
edition = "2021"
publish = false

[dependencies]
leb128 = "0.2"
clap = { version = "4", features = ["derive"] }
rand = "0.8"
wabt = "0.10"
nannou = "0.18"
