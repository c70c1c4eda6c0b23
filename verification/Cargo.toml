[package]
name = "fuse"
version = "0.1.0"
edition = "2021"
publish = false

[dependencies]
freebsd-errno = "*"
