[package]
name = "seacan"
version = "0.1.0"
edition = "2021"
publish = false

[dependencies]
cargo_metadata = "*"
regex = "*"
