[package]
name = "snes_apu"
version = "0.1.0"
edition = "2021"

[dependencies]
binary-reader = "*"
