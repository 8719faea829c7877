[package]
name = "terminal"
version = "0.1.0"
edition = "2021"
publish = false

[dependencies]
dirs = "4.0"
shellexpand = "2.1"
smallvec = "1.6"
