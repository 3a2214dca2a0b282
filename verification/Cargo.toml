[package]
name = "peg_syntax_ext"
version = "0.1.0"
edition = "2021"
publish = false

[dependencies]
peg = "0.5"
