[package]
name = "ctxmap"
version = "0.5.0"
edition = "2021"
publish = false

[dependencies]
once_cell = "1"
inventory = "0.3"
