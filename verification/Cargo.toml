[package]
name = "io_surface"
version = "0.1.0"
edition = "2021"
publish = false

[dependencies]
cgl = "*"
core-foundation = "*"
euclid = "*"
gleam = "*"
leaky-cow = "*"
libc = "*"
