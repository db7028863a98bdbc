[package]
name = "rwm"
version = "0.1.0"
edition = "2021"
publish = false

[dependencies]
env_logger = "*"
log = "*"
x11 = { version = "*", features = ["xlib"] }
