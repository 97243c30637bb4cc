[package]
name = "rusic"
version = "0.1.0"
edition = "2021"
publish = false

[dependencies]
simplemad = "*"
crossbeam-queue = "*"
libpulse-binding = "*"
libpulse-simple-binding = "*"
