[package]
name = "pysect"
version = "0.1.0"
edition = "2021"
publish = false

[dependencies]
arrow = { version = ">=53", default-features = false, features = ["pyarrow"] }
ndarray = ">=0.16"
numpy = ">=0.22"
pyo3 = ">=0.22"
