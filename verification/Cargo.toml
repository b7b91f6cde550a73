[package]
name = "pyo3_async"
version = "0.1.0"
edition = "2021"
publish = false

[dependencies]
pyo3 = "0.20"
futures = "0.3"
pin-project = "1"
