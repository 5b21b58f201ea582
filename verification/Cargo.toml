[package]
name = "tide_acme"
version = "0.2.0"
edition = "2021"
publish = false

[dependencies]
async-std = "*"
async-trait = "*"
futures-lite = "*"
rustls-acme = "=0.5.3"
tide-rustls = "*"
tracing = "*"
