[package]
name = "franka_rs"
version = "0.1.0"
edition = "2021"
publish = false

[dependencies]
bitflags = "2"
nalgebra = "0.33"
socket2 = "0.5"
thiserror = "1"
