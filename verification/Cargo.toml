[package]
name = "redwm"
version = "0.1.0"
edition = "2021"

[dependencies]
x11rb = "*"
