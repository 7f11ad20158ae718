[package]
name = "emacs_mac_input_source"
version = "0.1.0"
edition = "2021"
publish = false

[dependencies]
core-foundation = "*"
emacs = "*"
