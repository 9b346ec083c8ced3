[package]
name = "ros2_rust_wasm"
version = "0.1.0"
edition = "2021"
publish = false

[dependencies]
getopts = "*"
