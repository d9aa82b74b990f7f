[package]
name = "pronto_graphics"
version = "0.1.0"
edition = "2021"

[dependencies]
rust-embed = "6"
sfml = "0.16"
