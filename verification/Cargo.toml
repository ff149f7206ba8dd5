[package]
name = "uring_core"
version = "0.1.0"
edition = "2021"
publish = false

[dependencies]
io-uring = "0.6"
libc = "0.2"
