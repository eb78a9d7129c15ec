[package]
name = "rpi-led-matrix"
version = "0.2.2"
edition = "2021"
publish = false

[dependencies]
embedded-graphics = "0.6"
libc = "0.2"
