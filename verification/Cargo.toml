[package]
name = "async_wormhole"
version = "0.1.0"
edition = "2021"
publish = false

[dependencies]
libc = "*"
crossbeam = "*"
futures = "*"
