[package]
name = "hwp_section"
version = "0.1.0"
edition = "2021"
publish = false

[dependencies]
byteorder = "1"
flate2 = "1"
aes = "0.8"
