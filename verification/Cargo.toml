[package]
name = "tea5767"
version = "0.1.0"
edition = "2021"
publish = false

[dependencies]
bit_field = "0.10"
embedded-hal = "0.2"
micromath = "*"
