[package]
name = "is_variant"
version = "0.1.0"
edition = "2021"
publish = false

[dependencies]
convert_case = "*"
proc-macro2 = "*"
quote = "*"
syn = "*"
