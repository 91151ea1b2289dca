[package]
name = "fnd"
version = "0.1.0"
edition = "2021"
publish = false

[dependencies]
anyhow = "*"
ignore = "*"
mimalloc = "*"
regex = "*"
structopt = "*"
