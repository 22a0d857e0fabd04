[package]
name = "black76"
version = "0.1.0"
edition = "2021"
publish = false

[dependencies]
libc = "0.2"
num-traits = "0.2"
statrs = "*"
