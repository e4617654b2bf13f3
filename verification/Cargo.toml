[package]
name = "metal_dot"
version = "0.1.0"
edition = "2021"
publish = false

[dependencies]
metal = "=0.33.0"
rand = "=0.8.8"
