[package]
name = "cpu"
version = "0.1.0"
edition = "2021"
publish = false

[dependencies]
bitflags = "2"
num-traits = "0.2"
paste = "1"
thiserror = "1"
