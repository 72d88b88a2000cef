[package]
name = "fyssion_zone"
version = "0.1.0"
edition = "2021"
publish = false

[dependencies]
words-count = "*"
