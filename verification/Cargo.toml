[package]
name = "rusty_gbc"
version = "0.1.0"
edition = "2021"
publish = false

[dependencies]
hex = "0.4"
text_io = "0.1"
sdl2 = "0.34"
