[package]
name = "ryo3-jiff"
version = "0.1.0"
edition = "2021"
publish = false

[dependencies]
jiff = "0.2"
pyo3 = "*"
