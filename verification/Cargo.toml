[package]
name = "hrtf_conv"
version = "0.1.0"
edition = "2021"
publish = false

[dependencies]
sofar = "=0.3.0"
