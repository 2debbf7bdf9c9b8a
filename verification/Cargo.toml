[package]
name = "poseidon"
version = "0.1.0"
edition = "2021"
publish = false

[dependencies]
halo2curves = "=0.10.0"
hex = "=0.4.3"
once_cell = "=1.21.4"
