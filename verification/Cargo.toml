[package]
name = "sc64"
version = "0.1.0"
edition = "2021"
publish = false

[dependencies]
hex = "*"
md5 = "*"
rust-ini = "*"
chrono = "*"
