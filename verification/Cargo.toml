[package]
name = "msp430_rt"
version = "0.1.0"
edition = "2021"
publish = false

[dependencies]
msp430 = "*"
r0 = "*"
