[package]
name = "cairo_vm"
version = "0.1.0"
edition = "2021"
publish = false

[dependencies]
cairo-felt = "*"
num-bigint = "0.4"
num-traits = "0.2"
