[package]
name = "barkod"
version = "0.1.2"
edition = "2021"
publish = false

[dependencies]
pyo3 = { version = "0.23", features = ["abi3-py38"] }
wasm-bindgen = "0.2"
