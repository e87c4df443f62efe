[package]
name = "microphone"
version = "0.0.1"
edition = "2021"
publish = false

[dependencies]
hound = "3.5"
libloading = "0.8"
