[package]
name = "remagic"
version = "0.1.0"
edition = "2021"
publish = false

[dependencies]
lzxd = "*"
