[package]
name = "hdf5"
version = "0.1.0"
edition = "2021"
publish = false

[dependencies]
hdf5-sys = "*"
