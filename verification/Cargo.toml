[package]
name = "rust-c64"
version = "0.1.0"
edition = "2021"
publish = false

[dependencies]
getopts = "0.2"
sdl2 = "0.35"
