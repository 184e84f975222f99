[package]
name = "chip8rs"
version = "0.1.0"
edition = "2021"
publish = false

[dependencies]
rand = "=0.8.8"
clap = "=2.34.0"
rodio = { version = "=0.23.0", default-features = false, features = ["playback"] }
piston = "=1.0.0"
pistoncore-glutin_window = "=0.73.2"
piston2d-graphics = "=0.45.0"
piston2d-opengl_graphics = "=0.89.0"
