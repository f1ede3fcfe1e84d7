[package]
name = "convolution"
version = "0.1.0"
edition = "2021"
publish = false

[dependencies]
crossbeam = "*"
hound = "*"
realfft = "*"
rustfft = "*"
symphonium = "*"
