[package]
name = "kw41z_hal"
version = "0.1.0"
edition = "2021"
publish = false

[dependencies]
mkw41z = "*"
cortex-m = "*"
