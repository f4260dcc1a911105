[package]
name = "tg"
version = "0.1.0"
edition = "2021"
publish = false

[dependencies]
byteorder = "1"
image = { version = "*", default-features = false }
libc = "0.2"
svg = "*"
