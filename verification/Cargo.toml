[package]
name = "nutype_macros"
version = "0.1.0"
edition = "2021"
publish = false

[dependencies]
proc-macro2 = "1"
quote = "1"
syn = { version = "2", features = ["full", "extra-traits"] }
kinded = "*"
rust_decimal = "1"
cfg-if = "1"
