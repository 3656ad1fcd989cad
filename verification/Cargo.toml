[package]
name = "intel8080"
version = "0.1.0"
edition = "2021"
publish = false

[dependencies]
rodio = "0.11.0"
sdl2 = "0.34.5"
