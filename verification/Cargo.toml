[package]
name = "psx_controller"
version = "0.1.0"
edition = "2021"
publish = false

[dependencies]
bit_reverse = "*"
embedded-hal = "0.2"
