[package]
name = "zx_spectrum"
version = "0.1.0"
edition = "2021"
publish = false

[dependencies]
zilog_z80 = "=0.17.0"
sdl2 = { version = "=0.38.0", features = ["ttf"] }
rfd = { version = "=0.17.2", default-features = false, features = ["xdg-portal"] }
