[package]
name = "dmc"
version = "0.2.0"
edition = "2021"
publish = false

[dependencies]
nix = "*"
uuid = "*"
libc = "*"
vek = "*"
