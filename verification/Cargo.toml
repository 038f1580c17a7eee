[package]
name = "arducam_mega"
version = "0.1.0"
edition = "2021"
publish = false

[dependencies]
embedded-hal = "*"
