[package]
name = "rmm"
version = "0.1.0"
edition = "2021"
publish = false

[dependencies]
spin = "*"
spinning_top = "*"
