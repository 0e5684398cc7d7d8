[package]
name = "yks_converter_example"
version = "0.1.0"
edition = "2021"
publish = false

[dependencies]
hound = "3.5"
libc = "0.2"
yks_converter = "*"
