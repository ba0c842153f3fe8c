[package]
name = "xsk_rs"
version = "0.8.0"
edition = "2021"
publish = false

[dependencies]
libc = "0.2"
libxdp-sys = "0.2"
log = "0.4"
