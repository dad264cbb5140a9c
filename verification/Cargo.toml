[package]
name = "mach_o"
version = "0.1.0"
edition = "2021"
publish = false

[dependencies]
mach_o_sys = "*"
