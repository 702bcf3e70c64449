[package]
name = "inkwell"
version = "0.1.0"
edition = "2021"
publish = false

[dependencies]
llvm-sys = "*"
libc = "*"
once_cell = "*"
parking_lot = "*"
