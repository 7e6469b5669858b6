[package]
name = "llvmlite"
version = "0.1.0"
edition = "2021"
publish = false

[dependencies]
libloading = "*"
once_cell = "*"

[dev-dependencies]
anyhow = "*"
