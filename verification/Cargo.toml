[package]
name = "revonet"
version = "0.1.0"
edition = "2021"
publish = false

[dependencies]
rand = "=0.3.23"
rustc_apfloat = "=0.2.3"
