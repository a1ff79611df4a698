[package]
name = "highs"
version = "0.1.0"
edition = "2021"
publish = false

[dependencies]
highs-sys = "*"
log = "0.4"
