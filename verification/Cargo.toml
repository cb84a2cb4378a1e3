[package]
name = "olivec"
version = "0.1.0"
edition = "2021"
publish = false

[dependencies]
olivec-sys = "*"
