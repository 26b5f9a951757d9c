[package]
name = "yane"
version = "0.1.0"
edition = "2021"
publish = false

[dependencies]
hex = "0.4"
regex = "1"
sdl2 = "0.35"
