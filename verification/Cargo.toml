[package]
name = "rjvm"
version = "0.1.0"
edition = "2021"
publish = false

[dependencies]
bitmask = "0.5"
