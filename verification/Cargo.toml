[package]
name = "nam_core"
version = "0.1.0"
edition = "2021"
publish = false

[dependencies]
ringbuf = "0.4"
biquad = "0.4"
