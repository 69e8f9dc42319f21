[package]
name = "display_mode_tex"
version = "0.1.0"
edition = "2021"
publish = false

[dependencies]
quote = "*"
relative-path = "*"
syn = "*"
