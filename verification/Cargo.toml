[package]
name = "fastbloom_rs"
version = "0.1.0"
edition = "2021"

[dependencies]
bit-vec = "0.6"
fastmurmur3 = "*"
