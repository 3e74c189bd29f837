[package]
name = "nae"
version = "0.1.0"
edition = "2021"
publish = false

[dependencies]
rand = "=0.7.3"
rand_pcg = "=0.2.1"
glow = "=0.4.0"
winit = "0.20"
