[package]
name = "microvmi"
version = "0.1.0"
edition = "2021"
publish = false

[dependencies]
kvmi = "*"
fdp = "*"
