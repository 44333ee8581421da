[package]
name = "flycam"
version = "0.1.0"
edition = "2021"
publish = false

[dependencies]
cgmath = "0.17"
gl = "0.11"
glutin = "0.19"
image = { version = "0.21", default-features = false, features = ["jpeg", "pnm"] }
