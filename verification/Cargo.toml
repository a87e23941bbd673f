[package]
name = "abglyph"
version = "0.1.0"
edition = "2021"
publish = false

[dependencies]
lyon = "*"
ttf-parser = "*"
