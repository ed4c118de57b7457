[package]
name = "librashader"
version = "0.1.0"
edition = "2021"
publish = false

[dependencies]
bitflags = "1.3.2"
rustc-hash = "1.1.0"
