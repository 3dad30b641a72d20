[package]
name = "slothlang"
version = "0.1.0"
edition = "2021"
publish = false

[dependencies]
regex = "1"
clap = { version = "3.2", features = ["derive"] }
text_io = "0.1"
rand = "0.8"
sdl2 = "0.35"
