[package]
name = "open_eqms"
version = "0.1.0"
edition = "2021"
publish = false

[dependencies]
regex-lite = "*"
