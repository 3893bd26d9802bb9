[package]
name = "i2c_common"
version = "0.1.0"
edition = "2021"
publish = false

[dependencies]
bitflags = "2"
