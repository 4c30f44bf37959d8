[package]
name = "bldr"
version = "0.1.0"
edition = "2021"
publish = false

[dependencies]
toml = "0.1"
mustache = "0.6"
rustc-serialize = "0.3"
ansi_term = "*"
hyper = "0.10"
