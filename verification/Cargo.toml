[package]
name = "piet_backends"
version = "0.1.0"
edition = "2021"
publish = false

[dependencies]
piet = "=0.0.9"
raqote = { version = "=0.7.14", default-features = false }
font-kit = "=0.6.0"
skribo = "=0.1.0"
pathfinder_geometry = "=0.5.1"
lyon = "=0.15.9"
wgpu = "=0.4.0"
zerocopy = "=0.2.9"
core-graphics = "=0.19.2"
