[package]
name = "interp1d"
version = "0.2.0"
edition = "2021"
publish = false

[dependencies]
num-traits = "0.2"
thiserror = "1"

[dev-dependencies]
num-complex = "0.4"
