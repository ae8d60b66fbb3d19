[package]
name = "kernel_core"
version = "0.1.0"
edition = "2021"
publish = false

[dependencies]
once_cell_no_std = "*"
spin = "*"
