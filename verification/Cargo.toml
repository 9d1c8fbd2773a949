[package]
name = "tickeys"
version = "0.3.5"
edition = "2021"
publish = false

[dependencies]
rustc-serialize = "=0.3.25"
hyper = "=0.10.16"
objc = "=0.2.7"
block = "=0.1.6"
