[package]
name = "erg_compiler"
version = "0.1.0"
edition = "2021"
publish = false

[dependencies]
erg_common = "*"
erg_parser = "*"
