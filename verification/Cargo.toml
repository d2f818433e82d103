[package]
name = "honeybee"
version = "0.1.0"
edition = "2021"
publish = false

[dependencies]
postgres = "*"
fallible-iterator = "0.2"
