[package]
name = "dynamorio_rs"
version = "0.1.0"
edition = "2021"
publish = false

[dependencies]
dynamorio-sys = "*"
atomic = "*"
cstr_core = "*"
spin = "*"
