[package]
name = "bond_auction"
version = "0.1.0"
edition = "2021"
publish = false

[dependencies]
spl-math = "*"
