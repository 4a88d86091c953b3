[package]
name = "thermal_printer"
version = "0.1.0"
edition = "2021"
publish = false

[dependencies]
iconv = "*"
