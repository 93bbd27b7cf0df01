[package]
name = "dirstack"
version = "0.1.0"
edition = "2021"

[dependencies]
signal-hook = "*"
