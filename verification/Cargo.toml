[package]
name = "e1000_nic"
version = "0.1.0"
edition = "2021"
publish = false

[dependencies]
e1000-driver = "*"
