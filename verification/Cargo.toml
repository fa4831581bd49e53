[package]
name = "whimsy"
version = "0.1.0"
edition = "2021"
publish = false

[dependencies]
fixed = "=1.31.0"
cordic = "=0.1.5"
rustpython-vm = { version = "=0.5.0", default-features = false, features = ["compiler"] }
rustpython-compiler = "=0.5.0"
