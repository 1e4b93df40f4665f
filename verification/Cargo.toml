[package]
name = "rython"
version = "0.1.0"
edition = "2021"
publish = false

[dependencies]
anyhow = "=1.0.104"
libc = "=0.2.190"
pyo3 = "=0.29.3"
