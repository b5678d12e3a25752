[package]
name = "sapio"
version = "0.1.0"
edition = "2021"
publish = false

[dependencies]
schemars = "0.8"
