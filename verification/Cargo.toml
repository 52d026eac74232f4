[package]
name = "a320_electrical"
version = "0.1.0"
edition = "2021"
publish = false

[dependencies]
uom = "*"
