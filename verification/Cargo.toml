[package]
name = "expand_tilde"
version = "0.1.0"
edition = "2021"
publish = false

[dependencies]
home = "*"
