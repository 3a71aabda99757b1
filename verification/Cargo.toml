[package]
name = "xcolors"
version = "0.1.0"
edition = "2021"
publish = false

[dependencies]
libc = "*"
scopeguard = "*"
x11 = { version = "*", features = ["xlib"] }
