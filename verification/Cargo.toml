[package]
name = "ayaml"
version = "0.1.0"
edition = "2021"
publish = false

[dependencies]
yaml-rust2 = "*"
rustc_apfloat = "*"
serde = "*"
pyo3 = { version = "*", features = ["extension-module"] }
pythonize = "*"
