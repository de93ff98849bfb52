[package]
name = "rtsam"
version = "0.1.0"
edition = "2021"

[dependencies]
nalgebra = "0.32"
