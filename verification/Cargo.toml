[package]
name = "capstone"
version = "0.1.0"
edition = "2021"
publish = false

[dependencies]
capstone-sys = "=0.10.0"
