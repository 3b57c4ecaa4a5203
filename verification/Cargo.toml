[package]
name = "mpsc"
version = "0.1.0"
edition = "2021"
publish = false

[dependencies]
xpsupport-sys = "*"
