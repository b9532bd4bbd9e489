[package]
name = "volm"
version = "0.1.0"
edition = "2021"
publish = false

[dependencies]
wide = "=1.7.1"
rayon = "=1.12.0"
