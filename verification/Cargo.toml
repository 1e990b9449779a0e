[package]
name = "rdformats"
version = "0.1.0"
edition = "2021"
publish = false

[dependencies]
oxrdfio = "*"
oxrdf = "*"
pyo3 = "*"
