[package]
name = "dirac"
version = "0.1.0"
edition = "2021"
publish = false

[dependencies]
yaml-rust = "0.4"
hyper = "0.10"
rustc-serialize = "0.3"
clap = "2"
term-painter = "*"
