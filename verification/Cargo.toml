[package]
name = "emerald"
version = "0.1.0"
edition = "2021"
publish = false

[dependencies]
spin_sleep = "*"
log = "*"
env_logger = "*"
minifb = "*"
sdl2 = "*"
