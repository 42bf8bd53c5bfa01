[package]
name = "h3r"
version = "0.1.0"
edition = "2021"
publish = false

[dependencies]
h3o = "*"
extendr-api = "*"
