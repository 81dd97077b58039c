[package]
name = "kilo_rust"
version = "0.1.0"
edition = "2021"

[dependencies]
crossterm = "*"
errno = "*"
