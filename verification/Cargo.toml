[package]
name = "diffie_hellman"
version = "0.1.0"
edition = "2021"
publish = false

[dependencies]
primapalooza = "*"
rand = "0.8"
