[package]
name = "mksnd"
version = "0.1.0"
edition = "2021"
publish = false

[dependencies]
ringbuf = "=0.4.8"
cpal = "=0.15.3"
