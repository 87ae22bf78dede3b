[package]
name = "hypercubed"
version = "0.1.0"
edition = "2021"
publish = false

[dependencies]
fixedbitset = "=0.5.7"
nalgebra = { version = "*", default-features = false, features = ["std"] }
