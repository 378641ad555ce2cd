[package]
name = "deadman-switch"
version = "0.1.0"
edition = "2021"
publish = false

[dependencies]
anchor-lang = "=1.0.3"
