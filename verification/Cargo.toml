[package]
name = "quadpaint"
version = "0.1.0"
edition = "2021"
publish = false

[dependencies]
queues = "=1.1.0"
image = "=0.25.10"
gl = "=0.14.0"
nalgebra = "=0.35.0"
