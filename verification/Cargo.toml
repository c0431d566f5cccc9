[package]
name = "packed_ops"
version = "0.1.0"
edition = "2021"
publish = false

[dependencies]
smallvec = "1"
pyo3 = "0.21"
