[package]
name = "tere"
version = "0.1.0"
edition = "2021"

[dependencies]
dirs = "*"
