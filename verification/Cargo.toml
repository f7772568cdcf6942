[package]
name = "asm8051"
version = "0.1.0"
edition = "2021"
publish = false

[dependencies]
regex = "0.1"
