[package]
name = "fxr"
version = "0.1.0"
edition = "2021"
publish = false

[dependencies]
rand = "0.8"
realfft = "3"
serde_json = "1"
cpal = "0.13"
